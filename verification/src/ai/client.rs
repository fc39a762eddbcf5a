//! The client that asks a provider for documentation.

use vstd::prelude::*;
use crate::ai::providers::outcome_model;
use crate::ai::providers::AIProvider;
use crate::error::KtmeError;
use crate::error::KtmeErrorModel;
use crate::text::chars_of;
use crate::text::is_number;
use crate::text::number_of;
use crate::text::parse_number;

verus! {

/// The provider that the environment asks for.
#[derive(Debug, Clone, Copy, PartialEq, Eq, Structural)]
pub enum ProviderKind {
    OpenAI,
    Claude,
}

/// The provider that the environment asks for: the first kind where its key
/// is set, else the second where its key is set. With neither key there is
/// no provider.
pub open spec fn chosen_provider(openai_key: bool, anthropic_key: bool) -> Result<
    ProviderKind,
    KtmeErrorModel,
> {
    if openai_key {
        Ok(ProviderKind::OpenAI)
    } else if anthropic_key {
        Ok(ProviderKind::Claude)
    } else {
        Err(
            KtmeErrorModel::Config(
                "No AI provider configured. Set OPENAI_API_KEY or ANTHROPIC_API_KEY environment variable."@,
            ),
        )
    }
}

/// What a choice of provider, or the lack of one, stands for.
pub open spec fn choice_model(choice: Result<ProviderKind, KtmeError>) -> Result<
    ProviderKind,
    KtmeErrorModel,
> {
    match choice {
        Ok(kind) => Ok(kind),
        Err(e) => Err(e@),
    }
}

/// The digits of a setting: what follows a plus sign at its beginning, or
/// all of it.
pub open spec fn digits_of(text: Seq<char>) -> Seq<char> {
    if text.len() > 0 && text[0] == '+' {
        text.subrange(1, text.len() as int)
    } else {
        text
    }
}

/// The limit that a setting gives: the number that it holds where it is
/// made of decimal digits, with or without a plus sign before them, and
/// fits in a `u32`; else 4096.
pub open spec fn token_limit(setting: Option<Seq<char>>) -> nat {
    match setting {
        Some(text) => if is_number(digits_of(text)) && number_of(digits_of(text)) <= u32::MAX {
            number_of(digits_of(text))
        } else {
            4096
        },
        None => 4096,
    }
}

/// A value, kept as it was given. A boxed trait object is cast anew
/// wherever a place of its own type is filled, and nothing is known of a
/// value beyond such a cast; a place of a generic type is filled without
/// one.
struct Held<T> {
    value: T,
}

impl<T> Held<T> {
    /// Keeps `value`.
    fn new(value: T) -> (held: Self)
        ensures
            held.value == value,
    {
        Held { value }
    }
}

/// Asks a provider for documentation.
pub struct AIClient {
    provider: Held<Box<dyn AIProvider>>,
}

/// Whether a provider answered: it did where the outcome is a text.
pub open spec fn answered(outcome: Result<Seq<char>, KtmeErrorModel>) -> bool {
    outcome is Ok
}

impl AIClient {
    /// Whether `name` can be the name of the client's provider.
    pub closed spec fn names(&self, name: Seq<char>) -> bool {
        self.provider.value.names(name)
    }

    /// Whether `outcome` is one of the outcomes that asking the client's
    /// provider for `prompt` can have.
    pub closed spec fn generates(
        &self,
        prompt: Seq<char>,
        outcome: Result<Seq<char>, KtmeErrorModel>,
    ) -> bool {
        self.provider.value.generates(prompt, outcome)
    }

    /// A client of `provider`: it has the provider's name and the
    /// provider's outcomes.
    pub fn new(provider: Box<dyn AIProvider>) -> (client: Self)
        ensures
            forall|name: Seq<char>| #[trigger] client.names(name) == provider.names(name),
            forall|prompt: Seq<char>, outcome: Result<Seq<char>, KtmeErrorModel>|
                #[trigger] client.generates(prompt, outcome) == provider.generates(prompt, outcome),
    {
        let held = Held::new(provider);
        Self { provider: held }
    }

    /// What a test of the connection says of the outcome of a request:
    /// that the provider answered, or that it did not. The test itself
    /// never fails.
    pub fn connection_status(outcome: &Result<String, KtmeError>) -> (answers: Result<
        bool,
        KtmeError,
    >)
        ensures
            answers is Ok,
            answers->Ok_0 == answered(outcome_model(*outcome)),
    {
        match outcome {
            Ok(_) => Ok(true),
            Err(_) => Ok(false),
        }
    }

    /// Which provider to make, given which keys the environment holds.
    pub fn choose_provider(openai_key: bool, anthropic_key: bool) -> (choice: Result<
        ProviderKind,
        KtmeError,
    >)
        ensures
            choice_model(choice) == chosen_provider(openai_key, anthropic_key),
    {
        if openai_key {
            Ok(ProviderKind::OpenAI)
        } else if anthropic_key {
            Ok(ProviderKind::Claude)
        } else {
            Err(
                KtmeError::Config(
                    "No AI provider configured. Set OPENAI_API_KEY or ANTHROPIC_API_KEY environment variable.".to_string(),
                ),
            )
        }
    }

    /// The most tokens to ask for, given the setting of the environment.
    pub fn max_tokens(setting: Option<&str>) -> (limit: u32)
        ensures
            limit == token_limit(
                match setting {
                    Some(s) => Some(s@),
                    None => None,
                },
            ),
    {
        match setting {
            Some(text) => {
                let digits = chars_of(text);
                let from: usize = if digits.len() > 0 && digits[0] == '+' {
                    1
                } else {
                    0
                };
                proof {
                    assert(digits@.subrange(from as int, digits.len() as int) =~= digits_of(text@));
                }
                match parse_number(&digits, from, digits.len()) {
                    Some(n) => if n <= 0xFFFF_FFFF {
                        n as u32
                    } else {
                        4096
                    },
                    None => 4096,
                }
            },
            None => 4096,
        }
    }

    /// The documentation that the provider writes for `prompt`: the
    /// outcome of asking the provider for it, as it is.
    pub fn generate_documentation(&self, prompt: &str) -> (text: Result<String, KtmeError>)
        ensures
            self.generates(prompt@, outcome_model(text)),
    {
        self.provider.value.generate(prompt)
    }

    /// The provider's name.
    pub fn provider_name(&self) -> (name: &'static str)
        ensures
            self.names(name@),
    {
        self.provider.value.provider_name()
    }

    /// Whether the provider answers: it is asked for `Hello`, and the test
    /// says whether the outcome of that is a text. The test itself never
    /// fails.
    pub fn test_connection(&self) -> (answers: Result<bool, KtmeError>)
        ensures
            answers is Ok,
            exists|outcome: Result<Seq<char>, KtmeErrorModel>|
                #[trigger] self.generates("Hello"@, outcome) && answers->Ok_0 == answered(outcome),
    {
        let outcome = self.provider.value.generate("Hello");
        proof {
            assert(self.generates("Hello"@, outcome_model(outcome)));
        }
        Self::connection_status(&outcome)
    }
}

} // verus!
