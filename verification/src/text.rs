//! Text as sequences of characters.
//!
//! Every function here states its result over `Seq<char>`, the view of `str`
//! and `String`. The executable versions work on `Vec<char>`, which can be
//! indexed in constant time.

use vstd::prelude::*;
use vstd::string::StringExecFns;
use vstd::string::StringSliceAdditionalSpecFns;
use vstd::utf8::encode_utf8;
use vstd::utf8::encode_utf8_decode_utf8;

verus! {

/// `String::push` appends one character to the end of the string.
pub assume_specification[ std::string::String::push ](s: &mut std::string::String, ch: char)
    ensures
        final(s)@ == old(s)@.push(ch),
;

/// Calls `std::str::from_utf8`, which gives the text whose UTF-8 form the
/// bytes are, and fails exactly where the bytes are no valid UTF-8.
#[verifier::external_body]
fn from_utf8(bytes: &[u8]) -> (text: Option<&str>)
    ensures
        match text {
            Some(t) => t.spec_bytes() == bytes@,
            None => !vstd::utf8::valid_utf8(bytes@),
        },
{
    std::str::from_utf8(bytes).ok()
}

/// The text whose UTF-8 form `bytes` are, where they are valid UTF-8.
pub fn text_of(bytes: &[u8]) -> (text: Option<&str>)
    ensures
        match text {
            Some(t) => vstd::utf8::valid_utf8(bytes@) && t@ == vstd::utf8::decode_utf8(bytes@),
            None => !vstd::utf8::valid_utf8(bytes@),
        },
{
    let text = from_utf8(bytes);
    proof {
        if let Some(t) = text {
            vstd::utf8::encode_utf8_valid_utf8(t@);
            encode_utf8_decode_utf8(t@);
        }
    }
    text
}

/// The texts that `strings` hold, one for one.
pub open spec fn views(strings: Seq<String>) -> Seq<Seq<char>> {
    Seq::new(strings.len(), |i: int| strings[i]@)
}

/// The characters of `s`, in order.
pub fn chars_of(s: &str) -> (v: Vec<char>)
    ensures
        v@ == s@,
{
    let mut v: Vec<char> = Vec::new();
    for c in it: s.chars()
        invariant
            v@ == it.seq().take(it.index()),
            it.seq() == s@,
    {
        v.push(c);
    }
    v
}

/// The string made of the characters `v[from..to]`.
pub fn string_of(v: &Vec<char>, from: usize, to: usize) -> (s: String)
    requires
        from <= to <= v.len(),
    ensures
        s@ == v@.subrange(from as int, to as int),
{
    let mut s = String::new();
    let mut i: usize = from;
    while i < to
        invariant
            from <= i <= to <= v.len(),
            s@ == v@.subrange(from as int, i as int),
        decreases to - i,
    {
        s.push(v[i]);
        proof {
            assert(v@.subrange(from as int, i as int).push(v@[i as int]) == v@.subrange(
                from as int,
                i + 1,
            ));
        }
        i += 1;
    }
    s
}

/// The string made of all the characters of `v`.
pub fn from_chars(v: &Vec<char>) -> (s: String)
    ensures
        s@ == v@,
{
    let s = string_of(v, 0, v.len());
    proof {
        assert(v@.subrange(0, v.len() as int) == v@);
    }
    s
}

/// Two encodings are equal only if the texts are.
pub proof fn lemma_encoding_is_injective(a: Seq<char>, b: Seq<char>)
    requires
        encode_utf8(a) == encode_utf8(b),
    ensures
        a == b,
{
    encode_utf8_decode_utf8(a);
    encode_utf8_decode_utf8(b);
}

/// Whether two strings hold the same characters.
pub fn str_eq(a: &str, b: &str) -> (r: bool)
    ensures
        r == (a@ == b@),
{
    let x = a.as_bytes();
    let y = b.as_bytes();
    if x.len() != y.len() {
        return false;
    }
    let mut i: usize = 0;
    while i < x.len()
        invariant
            i <= x.len(),
            x.len() == y.len(),
            x@ == a.spec_bytes(),
            y@ == b.spec_bytes(),
            forall|k: int| 0 <= k < i ==> x@[k] == y@[k],
        decreases x.len() - i,
    {
        if x[i] != y[i] {
            return false;
        }
        i += 1;
    }
    proof {
        assert(x@ =~= y@);
        lemma_encoding_is_injective(a@, b@);
    }
    true
}

/// `a` followed by `b`.
pub fn concat(a: &str, b: &str) -> (s: String)
    ensures
        s@ == a@ + b@,
{
    let mut s = a.to_string();
    s.append(b);
    s
}

/// `a`, `b` and `c`, one after the other.
pub fn concat3(a: &str, b: &str, c: &str) -> (s: String)
    ensures
        s@ == a@ + b@ + c@,
{
    let mut s = a.to_string();
    s.append(b);
    s.append(c);
    s
}

/// Whether `needle` stands in `s` at the index `at`.
pub open spec fn occurs_at(s: Seq<char>, needle: Seq<char>, at: int) -> bool {
    0 <= at && at + needle.len() <= s.len() && s.subrange(at, at + needle.len()) == needle
}

/// Whether `s` begins with `prefix`.
pub open spec fn has_prefix(s: Seq<char>, prefix: Seq<char>) -> bool {
    occurs_at(s, prefix, 0)
}

/// The first index from `from` on at which `needle` stands in `s`.
pub open spec fn find_from(s: Seq<char>, needle: Seq<char>, from: int) -> Option<int>
    decreases s.len() + 1 - from,
{
    if from < 0 || from + needle.len() > s.len() {
        None
    } else if occurs_at(s, needle, from) {
        Some(from)
    } else {
        find_from(s, needle, from + 1)
    }
}

/// The first index at which `needle` stands in `s`.
pub open spec fn find(s: Seq<char>, needle: Seq<char>) -> Option<int> {
    find_from(s, needle, 0)
}

/// Whether `needle` stands somewhere in `s`.
pub open spec fn contains(s: Seq<char>, needle: Seq<char>) -> bool {
    find(s, needle) is Some
}

/// What `find_from` finds is the first place from `from` on where `needle`
/// stands, and it finds one wherever there is one.
pub proof fn lemma_find_from(s: Seq<char>, needle: Seq<char>, from: int)
    requires
        0 <= from,
    ensures
        match find_from(s, needle, from) {
            Some(at) => from <= at && occurs_at(s, needle, at) && forall|k: int|
                from <= k < at ==> !occurs_at(s, needle, k),
            None => forall|k: int| from <= k ==> !occurs_at(s, needle, k),
        },
    decreases s.len() + 1 - from,
{
    if from + needle.len() > s.len() {
    } else if occurs_at(s, needle, from) {
    } else {
        lemma_find_from(s, needle, from + 1);
    }
}

/// Whether `needle` stands in `s` at the index `at`.
pub fn matches_at(s: &Vec<char>, needle: &Vec<char>, at: usize) -> (r: bool)
    ensures
        r == occurs_at(s@, needle@, at as int),
{
    if needle.len() > s.len() || at > s.len() - needle.len() {
        return false;
    }
    let mut i: usize = 0;
    while i < needle.len()
        invariant
            i <= needle.len(),
            at + needle.len() <= s.len(),
            forall|k: int| 0 <= k < i ==> s@[at + k] == needle@[k],
        decreases needle.len() - i,
    {
        if s[at + i] != needle[i] {
            proof {
                assert(s@.subrange(at as int, at + needle.len())[i as int] == s@[at + i]);
            }
            return false;
        }
        i += 1;
    }
    proof {
        assert(s@.subrange(at as int, at + needle.len()) =~= needle@);
    }
    true
}

/// The first index from `from` on at which `needle` stands in `s`.
pub fn find_in(s: &Vec<char>, needle: &Vec<char>, from: usize) -> (at: Option<usize>)
    ensures
        match at {
            Some(i) => find_from(s@, needle@, from as int) == Some(i as int) && i + needle.len()
                <= s.len(),
            None => find_from(s@, needle@, from as int) is None,
        },
{
    if needle.len() > s.len() {
        return None;
    }
    let last = s.len() - needle.len();
    let mut i: usize = from;
    while i <= last
        invariant
            from <= i,
            last == s.len() - needle.len(),
            find_from(s@, needle@, from as int) == find_from(s@, needle@, i as int),
        decreases last + 1 - i,
    {
        if matches_at(s, needle, i) {
            return Some(i);
        }
        if i == last {
            proof {
                assert(find_from(s@, needle@, i + 1) is None);
            }
            return None;
        }
        i += 1;
    }
    None
}

/// Whether `s` begins with `prefix`.
pub fn starts_with(s: &str, prefix: &str) -> (r: bool)
    ensures
        r == has_prefix(s@, prefix@),
{
    let text = chars_of(s);
    let start = chars_of(prefix);
    matches_at(&text, &start, 0)
}

/// Whether `needle` stands somewhere in `s`.
pub fn str_contains(s: &str, needle: &str) -> (r: bool)
    ensures
        r == contains(s@, needle@),
{
    let text = chars_of(s);
    let part = chars_of(needle);
    find_in(&text, &part, 0).is_some()
}

/// The characters of `s` from the index `from` on.
pub fn skip(s: &str, from: usize) -> (rest: String)
    requires
        from <= s@.len(),
    ensures
        rest@ == s@.subrange(from as int, s@.len() as int),
{
    let text = chars_of(s);
    string_of(&text, from, text.len())
}

/// A set of characters to strip from the ends of a text.
#[derive(Debug, Clone, Copy)]
pub enum CharClass {
    /// The characters that Unicode calls white space.
    Whitespace,
    /// One character.
    Only(char),
}

/// Whether Unicode calls `c` white space.
pub open spec fn is_whitespace(c: char) -> bool {
    let u = c as u32;
    (0x09 <= u <= 0x0D) || u == 0x20 || u == 0x85 || u == 0xA0 || u == 0x1680 || (0x2000 <= u
        <= 0x200A) || u == 0x2028 || u == 0x2029 || u == 0x202F || u == 0x205F || u == 0x3000
}

impl CharClass {
    /// Whether `c` is in the set.
    pub open spec fn has(self, c: char) -> bool {
        match self {
            CharClass::Whitespace => is_whitespace(c),
            CharClass::Only(x) => c == x,
        }
    }

    /// Whether `c` is in the set.
    pub fn holds(&self, c: char) -> (r: bool)
        ensures
            r == self.has(c),
    {
        match self {
            CharClass::Whitespace => {
                let u = c as u32;
                (0x09 <= u && u <= 0x0D) || u == 0x20 || u == 0x85 || u == 0xA0 || u == 0x1680 || (
                0x2000 <= u && u <= 0x200A) || u == 0x2028 || u == 0x2029 || u == 0x202F || u
                    == 0x205F || u == 0x3000
            },
            CharClass::Only(x) => c == *x,
        }
    }
}

/// The first index from `from` on whose character is not in `class`, or the
/// length of `s`.
pub open spec fn start_of(s: Seq<char>, class: CharClass, from: int) -> int
    decreases s.len() - from,
{
    if 0 <= from < s.len() && class.has(s[from]) {
        start_of(s, class, from + 1)
    } else {
        from
    }
}

/// The end of `s[start..to]` once the characters of `class` are taken from
/// its end.
pub open spec fn end_of(s: Seq<char>, class: CharClass, start: int, to: int) -> int
    decreases to,
{
    if start < to <= s.len() && 0 < to && class.has(s[to - 1]) {
        end_of(s, class, start, to - 1)
    } else {
        to
    }
}

/// `s` without the characters of `class` at its beginning.
pub open spec fn trimmed_start(s: Seq<char>, class: CharClass) -> Seq<char> {
    s.subrange(start_of(s, class, 0), s.len() as int)
}

/// `s` without the characters of `class` at its end.
pub open spec fn trimmed_end(s: Seq<char>, class: CharClass) -> Seq<char> {
    s.subrange(0, end_of(s, class, 0, s.len() as int))
}

/// `s` without the characters of `class` at its beginning and at its end.
pub open spec fn trimmed(s: Seq<char>, class: CharClass) -> Seq<char> {
    let start = start_of(s, class, 0);
    s.subrange(start, end_of(s, class, start, s.len() as int))
}

/// `s` without white space at its beginning and at its end.
pub open spec fn trim_spaces(s: Seq<char>) -> Seq<char> {
    trimmed(s, CharClass::Whitespace)
}

/// The first index from `from` on whose character is not in `class`.
pub fn stripped_start(s: &Vec<char>, class: CharClass, from: usize) -> (start: usize)
    requires
        from <= s.len(),
    ensures
        start == start_of(s@, class, from as int),
        from <= start <= s.len(),
{
    let mut i: usize = from;
    while i < s.len() && class.holds(s[i])
        invariant
            from <= i <= s.len(),
            start_of(s@, class, from as int) == start_of(s@, class, i as int),
        decreases s.len() - i,
    {
        i += 1;
    }
    i
}

/// The end of `s[start..to]` once the characters of `class` are taken from
/// its end.
pub fn stripped_end(s: &Vec<char>, class: CharClass, start: usize, to: usize) -> (end: usize)
    requires
        start <= to <= s.len(),
    ensures
        end == end_of(s@, class, start as int, to as int),
        start <= end <= to,
{
    let mut i: usize = to;
    while i > start && class.holds(s[i - 1])
        invariant
            start <= i <= to <= s.len(),
            end_of(s@, class, start as int, to as int) == end_of(s@, class, start as int, i as int),
        decreases i,
    {
        i -= 1;
    }
    i
}

/// `s` without the characters of `class` at its beginning and at its end.
pub fn strip(s: &str, class: CharClass) -> (r: String)
    ensures
        r@ == trimmed(s@, class),
{
    let text = chars_of(s);
    let start = stripped_start(&text, class, 0);
    let end = stripped_end(&text, class, start, text.len());
    string_of(&text, start, end)
}

/// `s` without the characters of `class` at its beginning.
pub fn strip_start(s: &str, class: CharClass) -> (r: String)
    ensures
        r@ == trimmed_start(s@, class),
{
    let text = chars_of(s);
    let start = stripped_start(&text, class, 0);
    string_of(&text, start, text.len())
}

/// `s` without the characters of `class` at its end.
pub fn strip_end(s: &str, class: CharClass) -> (r: String)
    ensures
        r@ == trimmed_end(s@, class),
{
    let text = chars_of(s);
    let end = stripped_end(&text, class, 0, text.len());
    string_of(&text, 0, end)
}

/// `s` without white space at its beginning and at its end.
pub fn trim(s: &str) -> (r: String)
    ensures
        r@ == trim_spaces(s@),
{
    strip(s, CharClass::Whitespace)
}

/// The decimal digit of a number below ten.
pub open spec fn digit(d: nat) -> char {
    if d == 0 {
        '0'
    } else if d == 1 {
        '1'
    } else if d == 2 {
        '2'
    } else if d == 3 {
        '3'
    } else if d == 4 {
        '4'
    } else if d == 5 {
        '5'
    } else if d == 6 {
        '6'
    } else if d == 7 {
        '7'
    } else if d == 8 {
        '8'
    } else {
        '9'
    }
}

/// The decimal digits of `n`, without leading zeros.
pub open spec fn decimal(n: nat) -> Seq<char>
    decreases n,
{
    if n < 10 {
        seq![digit(n)]
    } else {
        decimal(n / 10).push(digit(n % 10))
    }
}

/// The decimal digit of a number below ten.
pub fn digit_of(d: u64) -> (c: char)
    requires
        d < 10,
    ensures
        c == digit(d as nat),
{
    if d == 0 {
        '0'
    } else if d == 1 {
        '1'
    } else if d == 2 {
        '2'
    } else if d == 3 {
        '3'
    } else if d == 4 {
        '4'
    } else if d == 5 {
        '5'
    } else if d == 6 {
        '6'
    } else if d == 7 {
        '7'
    } else if d == 8 {
        '8'
    } else {
        '9'
    }
}

/// Appends the decimal digits of `n` to `out`.
pub fn push_decimal(out: &mut String, n: u64)
    ensures
        final(out)@ == old(out)@ + decimal(n as nat),
    decreases n,
{
    if n >= 10 {
        push_decimal(out, n / 10);
    }
    out.push(digit_of(n % 10));
    proof {
        if n >= 10 {
            assert(old(out)@ + decimal(n as nat / 10).push(digit(n as nat % 10)) =~= (old(out)@
                + decimal(n as nat / 10)).push(digit(n as nat % 10)));
        } else {
            assert(old(out)@ + seq![digit(n as nat)] =~= old(out)@.push(digit(n as nat)));
        }
    }
}

/// The decimal digits of `n`.
pub fn decimal_string(n: u64) -> (s: String)
    ensures
        s@ == decimal(n as nat),
{
    let mut s = String::new();
    push_decimal(&mut s, n);
    proof {
        assert(Seq::<char>::empty() + decimal(n as nat) =~= decimal(n as nat));
    }
    s
}

/// `parts` with `separator` between each two of them.
pub open spec fn joined(parts: Seq<Seq<char>>, separator: Seq<char>) -> Seq<char>
    decreases parts.len(),
{
    if parts.len() == 0 {
        Seq::empty()
    } else if parts.len() == 1 {
        parts[0]
    } else {
        joined(parts.drop_last(), separator) + separator + parts.last()
    }
}

/// `parts` with `separator` between each two of them.
pub fn join(parts: &Vec<String>, separator: &str) -> (s: String)
    ensures
        s@ == joined(views(parts@), separator@),
{
    let mut s = String::new();
    let mut i: usize = 0;
    while i < parts.len()
        invariant
            i <= parts.len(),
            s@ == joined(views(parts@).take(i as int), separator@),
        decreases parts.len() - i,
    {
        proof {
            let before = views(parts@).take(i as int);
            let after = views(parts@).take(i + 1);
            assert(after.drop_last() =~= before);
            assert(after.last() == parts@[i as int]@);
            if i == 0 {
                assert(s@ + parts@[i as int]@ =~= parts@[i as int]@);
            }
        }
        if i > 0 {
            s.append(separator);
        }
        s.append(parts[i].as_str());
        i += 1;
    }
    proof {
        assert(views(parts@).take(parts.len() as int) =~= views(parts@));
    }
    s
}

/// The first index from `from` on whose character is in `class`, or the
/// length of `s`.
pub open spec fn next_of(s: Seq<char>, class: CharClass, from: int) -> int
    decreases s.len() - from,
{
    if 0 <= from < s.len() && !class.has(s[from]) {
        next_of(s, class, from + 1)
    } else {
        from
    }
}

/// The first index from `from` on whose character is in `class`, or the
/// length of `s`.
pub fn next_in(s: &Vec<char>, class: CharClass, from: usize) -> (at: usize)
    requires
        from <= s.len(),
    ensures
        at == next_of(s@, class, from as int),
        from <= at <= s.len(),
{
    let mut i: usize = from;
    while i < s.len() && !class.holds(s[i])
        invariant
            from <= i <= s.len(),
            next_of(s@, class, from as int) == next_of(s@, class, i as int),
        decreases s.len() - i,
    {
        i += 1;
    }
    i
}

/// Whether `c` is a decimal digit.
pub open spec fn is_digit(c: char) -> bool {
    '0' <= c <= '9'
}

/// Whether `s` is made of decimal digits, and of one at least.
pub open spec fn is_number(s: Seq<char>) -> bool {
    s.len() > 0 && forall|i: int| 0 <= i < s.len() ==> is_digit(#[trigger] s[i])
}

/// The number that a decimal digit stands for.
pub open spec fn digit_value(c: char) -> nat {
    (c as u32 - '0' as u32) as nat
}

/// The number that decimal digits stand for.
pub open spec fn number_of(digits: Seq<char>) -> nat
    decreases digits.len(),
{
    if digits.len() == 0 {
        0
    } else {
        number_of(digits.drop_last()) * 10 + digit_value(digits.last())
    }
}

/// More digits stand for no smaller number.
pub proof fn lemma_number_grows(digits: Seq<char>, n: int)
    requires
        0 <= n <= digits.len(),
    ensures
        number_of(digits.take(n)) <= number_of(digits),
    decreases digits.len() - n,
{
    if n == digits.len() {
        assert(digits.take(n) =~= digits);
    } else {
        lemma_number_grows(digits, n + 1);
        assert(digits.take(n + 1).drop_last() =~= digits.take(n));
    }
}

/// The number that `s[from..to]` stands for, where that is made of decimal
/// digits and the number fits in a `usize`.
pub fn parse_number(s: &Vec<char>, from: usize, to: usize) -> (number: Option<usize>)
    requires
        from <= to <= s.len(),
    ensures
        match number {
            Some(n) => is_number(s@.subrange(from as int, to as int)) && n == number_of(
                s@.subrange(from as int, to as int),
            ),
            None => !is_number(s@.subrange(from as int, to as int)) || number_of(
                s@.subrange(from as int, to as int),
            ) > usize::MAX,
        },
{
    let ghost digits = s@.subrange(from as int, to as int);
    if from == to {
        return None;
    }
    let mut value: usize = 0;
    let mut i: usize = from;
    while i < to
        invariant
            from <= i <= to <= s.len(),
            digits == s@.subrange(from as int, to as int),
            forall|k: int| 0 <= k < i - from ==> is_digit(#[trigger] digits[k]),
            value == number_of(digits.take(i - from)),
        decreases to - i,
    {
        let c = s[i];
        proof {
            assert(digits[i - from] == c);
            assert(digits.take(i - from + 1).drop_last() =~= digits.take(i - from));
            assert(digits.take(i - from + 1).last() == c);
        }
        if c < '0' || c > '9' {
            return None;
        }
        let d = (c as u32 - '0' as u32) as usize;
        if value > (usize::MAX - d) / 10 {
            proof {
                lemma_number_grows(digits, i - from + 1);
            }
            return None;
        }
        value = value * 10 + d;
        i += 1;
    }
    proof {
        assert(digits.take(to - from) =~= digits);
    }
    Some(value)
}

/// The lower-case form of an ASCII letter; any other character as it is.
pub open spec fn lower(c: char) -> char {
    if 'A' <= c <= 'Z' {
        ((c as u32) + 32) as char
    } else {
        c
    }
}

/// Whether `a[from..to]` and `b` are the same but for the case of ASCII
/// letters.
pub open spec fn same_ignoring_case(a: Seq<char>, b: Seq<char>) -> bool {
    a.len() == b.len() && forall|i: int| 0 <= i < a.len() ==> lower(#[trigger] a[i]) == lower(b[i])
}

/// The lower-case form of an ASCII letter; any other character as it is.
pub fn to_lower(c: char) -> (l: char)
    ensures
        l == lower(c),
{
    if c >= 'A' && c <= 'Z' {
        let code = c as u32 + 32;
        assert(code < 128);
        code as u8 as char
    } else {
        c
    }
}

/// Whether `a[from..to]` and `b` are the same but for the case of ASCII
/// letters.
pub fn eq_ignoring_case(a: &Vec<char>, from: usize, to: usize, b: &Vec<char>) -> (r: bool)
    requires
        from <= to <= a.len(),
    ensures
        r == same_ignoring_case(a@.subrange(from as int, to as int), b@),
{
    if to - from != b.len() {
        return false;
    }
    let mut i: usize = 0;
    while i < b.len()
        invariant
            i <= b.len(),
            from <= to <= a.len(),
            to - from == b.len(),
            forall|k: int|
                0 <= k < i ==> lower(#[trigger] a@.subrange(from as int, to as int)[k]) == lower(
                    b@[k],
                ),
        decreases b.len() - i,
    {
        if to_lower(a[from + i]) != to_lower(b[i]) {
            proof {
                assert(a@.subrange(from as int, to as int)[i as int] == a@[from + i]);
            }
            return false;
        }
        proof {
            assert(a@.subrange(from as int, to as int)[i as int] == a@[from + i]);
        }
        i += 1;
    }
    true
}

/// The line of `s` that begins at `from`: up to the next line feed, without
/// it and without a carriage return just before it. A last line that no
/// line feed ends keeps a carriage return at its end.
pub open spec fn line_at(s: Seq<char>, from: int) -> Seq<char> {
    let end = next_of(s, CharClass::Only('\n'), from);
    if end < s.len() && from < end && s[end - 1] == '\r' {
        s.subrange(from, end - 1)
    } else {
        s.subrange(from, end)
    }
}

/// The lines of `s` from the index `from` on. What follows the last line
/// feed is a line only where it is not empty.
pub open spec fn lines_from(s: Seq<char>, from: int) -> Seq<Seq<char>>
    decreases s.len() + 1 - from,
{
    if from < 0 || from >= s.len() {
        Seq::empty()
    } else {
        let end = next_of(s, CharClass::Only('\n'), from);
        if end < from || end > s.len() {
            Seq::empty()
        } else {
            seq![line_at(s, from)] + lines_from(s, end + 1)
        }
    }
}

/// The lines of `s`.
pub open spec fn lines_of(s: Seq<char>) -> Seq<Seq<char>> {
    lines_from(s, 0)
}

/// The lines of `s`.
pub fn lines(s: &str) -> (list: Vec<String>)
    ensures
        views(list@) == lines_of(s@),
{
    let text = chars_of(s);
    let mut list: Vec<String> = Vec::new();
    let mut from: usize = 0;
    while from < text.len()
        invariant
            text@ == s@,
            from <= text.len(),
            lines_of(s@) == views(list@) + lines_from(s@, from as int),
        decreases text.len() - from,
    {
        let end = next_in(&text, CharClass::Only('\n'), from);
        let stop = if end < text.len() && from < end && text[end - 1] == '\r' {
            end - 1
        } else {
            end
        };
        let line = string_of(&text, from, stop);
        proof {
            assert(line@ == line_at(s@, from as int));
            assert(views(list@.push(line)) =~= views(list@) + seq![line@]);
            assert(views(list@) + (seq![line@] + lines_from(s@, end + 1)) =~= views(list@) + seq![
                line@,
            ] + lines_from(s@, end + 1));
        }
        list.push(line);
        from = if end < text.len() {
            end + 1
        } else {
            end
        };
    }
    proof {
        assert(views(list@) + Seq::<Seq<char>>::empty() =~= views(list@));
    }
    list
}

/// The index just after the last `c` in `s[..to]`, or 0 where there is
/// none.
pub open spec fn after_last(s: Seq<char>, c: char, to: int) -> int
    decreases to,
{
    if 0 < to <= s.len() && s[to - 1] != c {
        after_last(s, c, to - 1)
    } else {
        to
    }
}

/// What follows the last `c` in `s`; all of `s` where it holds no `c`.
pub open spec fn last_part(s: Seq<char>, c: char) -> Seq<char> {
    if s.len() == 0 {
        s
    } else {
        s.subrange(after_last(s, c, s.len() as int), s.len() as int)
    }
}

/// The index just after the last `c` in `s[..to]`.
pub fn after_last_in(s: &Vec<char>, c: char, to: usize) -> (at: usize)
    requires
        to <= s.len(),
    ensures
        at == after_last(s@, c, to as int),
        at <= to,
{
    let mut i: usize = to;
    while i > 0 && s[i - 1] != c
        invariant
            i <= to <= s.len(),
            after_last(s@, c, to as int) == after_last(s@, c, i as int),
        decreases i,
    {
        i -= 1;
    }
    i
}

/// What stands between the first `c` of `s` and the next one, or the end;
/// the empty text where `s` holds no `c`.
pub open spec fn second_part(s: Seq<char>, c: char) -> Seq<char> {
    let first = next_of(s, CharClass::Only(c), 0);
    if first >= s.len() {
        Seq::empty()
    } else {
        s.subrange(first + 1, next_of(s, CharClass::Only(c), first + 1))
    }
}

/// What stands between the first `c` of `s` and the next one.
pub fn second_part_of(s: &Vec<char>, c: char) -> (part: Vec<char>)
    ensures
        part@ == second_part(s@, c),
{
    let first = next_in(s, CharClass::Only(c), 0);
    let mut part: Vec<char> = Vec::new();
    if first >= s.len() {
        return part;
    }
    let end = next_in(s, CharClass::Only(c), first + 1);
    let mut i: usize = first + 1;
    while i < end
        invariant
            first + 1 <= i <= end <= s.len(),
            part@ == s@.subrange(first + 1, i as int),
        decreases end - i,
    {
        part.push(s[i]);
        proof {
            assert(s@.subrange(first + 1, i as int).push(s@[i as int]) =~= s@.subrange(
                first + 1,
                i + 1,
            ));
        }
        i += 1;
    }
    part
}

/// `s` from the index `from` on, with `to` in place of each `pattern`, found
/// from left to right, one after the end of the other.
pub open spec fn replaced_from(s: Seq<char>, pattern: Seq<char>, to: Seq<char>, from: int) -> Seq<
    char,
>
    decreases s.len() - from,
{
    if pattern.len() == 0 || from < 0 || from > s.len() {
        Seq::empty()
    } else {
        match find_from(s, pattern, from) {
            Some(at) => if from <= at && at + pattern.len() <= s.len() {
                s.subrange(from, at) + to + replaced_from(s, pattern, to, at + pattern.len())
            } else {
                Seq::empty()
            },
            None => s.subrange(from, s.len() as int),
        }
    }
}

/// `to` before each character of `s` from the index `from` on, and at the
/// end.
pub open spec fn interleaved(s: Seq<char>, to: Seq<char>, from: int) -> Seq<char>
    decreases s.len() - from,
{
    if from < 0 || from >= s.len() {
        to
    } else {
        to + seq![s[from]] + interleaved(s, to, from + 1)
    }
}

/// `s` with `to` in place of each `pattern`. The empty pattern stands
/// before each character and at the end.
pub open spec fn replaced(s: Seq<char>, pattern: Seq<char>, to: Seq<char>) -> Seq<char> {
    if pattern.len() == 0 {
        interleaved(s, to, 0)
    } else {
        replaced_from(s, pattern, to, 0)
    }
}

/// `to` before each character of `s` and at the end.
fn interleave(text: &Vec<char>, to: &str) -> (r: String)
    ensures
        r@ == interleaved(text@, to@, 0),
{
    let mut r = String::new();
    let mut i: usize = 0;
    while i < text.len()
        invariant
            i <= text.len(),
            interleaved(text@, to@, 0) == r@ + interleaved(text@, to@, i as int),
        decreases text.len() - i,
    {
        proof {
            assert(r@ + (to@ + seq![text@[i as int]] + interleaved(text@, to@, i + 1)) =~= (r@
                + to@).push(text@[i as int]) + interleaved(text@, to@, i + 1));
        }
        r.append(to);
        r.push(text[i]);
        i += 1;
    }
    r.append(to);
    r
}

/// `s` with `to` in place of each `pattern`.
pub fn replace(s: &str, pattern: &str, to: &str) -> (r: String)
    ensures
        r@ == replaced(s@, pattern@, to@),
{
    if pattern.is_empty() {
        let text = chars_of(s);
        return interleave(&text, to);
    }
    let text = chars_of(s);
    let needle = chars_of(pattern);
    let mut r = String::new();
    let mut from: usize = 0;
    loop
        invariant
            text@ == s@,
            needle@ == pattern@,
            pattern@.len() > 0,
            from <= text.len(),
            replaced_from(s@, pattern@, to@, 0) == r@ + replaced_from(
                s@,
                pattern@,
                to@,
                from as int,
            ),
        decreases text.len() - from,
    {
        match find_in(&text, &needle, from) {
            Some(at) => {
                proof {
                    lemma_find_from(s@, pattern@, from as int);
                    assert(r@ + (s@.subrange(from as int, at as int) + to@ + replaced_from(
                        s@,
                        pattern@,
                        to@,
                        at + pattern@.len(),
                    )) =~= r@ + s@.subrange(from as int, at as int) + to@ + replaced_from(
                        s@,
                        pattern@,
                        to@,
                        at + pattern@.len(),
                    ));
                }
                let piece = string_of(&text, from, at);
                r.append(piece.as_str());
                r.append(to);
                from = at + needle.len();
            },
            None => {
                let rest = string_of(&text, from, text.len());
                r.append(rest.as_str());
                return r;
            },
        }
    }
}

} // verus!
