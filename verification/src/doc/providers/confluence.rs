//! The provider that keeps documents as pages of Confluence. Here are its
//! rules; talking to the site is the caller's part.

use vstd::prelude::*;
use vstd::string::StringExecFns;
use vstd::utf8::encode_utf8;
use crate::doc::providers::config::ConfluenceConfig;
use crate::doc::providers::Document;
use crate::doc::providers::DocumentMetadata;
use crate::json::entry;
use crate::json::member_models;
use crate::json::Json;
use crate::json::JsonModel;
use crate::json::Member;
use crate::json::MemberModel;
use crate::text::views;
use crate::text::chars_of;
use crate::text::concat;
use crate::text::concat3;
use crate::text::find;
use crate::text::find_in;
use crate::text::string_of;
use crate::text::strip_end;
use crate::text::strip_start;
use crate::text::trimmed_end;
use crate::text::trimmed_start;
use crate::text::CharClass;

verus! {

/// The text that the standard engine of `base64` makes of a text.
pub uninterp spec fn base64_text(text: Seq<char>) -> Seq<char>;

/// Calls `Engine::encode` on `base64::engine::general_purpose::STANDARD`,
/// which does not take an input whose encoding would be longer than a
/// `usize` can say.
#[verifier::external_body]
fn base64_encode(text: &str) -> (encoded: String)
    requires
        encode_utf8(text@).len() <= usize::MAX / 2,
    ensures
        encoded@ == base64_text(text@),
{
    base64::Engine::encode(&base64::engine::general_purpose::STANDARD, text)
}

/// Whether `urlencoding::encode` leaves a byte as it is: a letter or a digit
/// of ASCII, or one of `-`, `_`, `.` and `~`.
pub open spec fn is_unreserved(byte: u8) -> bool {
    (0x30 <= byte <= 0x39) || (0x41 <= byte <= 0x5A) || (0x61 <= byte <= 0x7A) || byte == 0x2D
        || byte == 0x5F || byte == 0x2E || byte == 0x7E
}

/// The upper-case hexadecimal digit of a number below sixteen.
pub open spec fn hex_digit(n: u8) -> char {
    if n < 10 {
        (0x30 + n) as char
    } else {
        (0x41 + n - 10) as char
    }
}

/// What stands for one byte in a percent-encoded text.
pub open spec fn encoded_byte(byte: u8) -> Seq<char> {
    if is_unreserved(byte) {
        seq![byte as char]
    } else {
        seq!['%', hex_digit(byte / 16), hex_digit(byte % 16)]
    }
}

/// The percent-encoding of bytes.
pub open spec fn percent_encoded(bytes: Seq<u8>) -> Seq<char>
    decreases bytes.len(),
{
    if bytes.len() == 0 {
        Seq::empty()
    } else {
        percent_encoded(bytes.drop_last()) + encoded_byte(bytes.last())
    }
}

/// Calls `urlencoding::encode`, which percent-encodes every byte of the
/// text's UTF-8 form except the letters and digits of ASCII and `-`, `_`,
/// `.` and `~`, with upper-case hexadecimal digits.
#[verifier::external_body]
fn url_encode(text: &str) -> (encoded: String)
    ensures
        encoded@ == percent_encoded(encode_utf8(text@)),
{
    urlencoding::encode(text).into_owned()
}

/// The endpoint of one page, with its body, version and space.
pub open spec fn page_endpoint(page_id: Seq<char>) -> Seq<char> {
    "content/"@ + page_id + "?expand=body.storage,version,space"@
}

/// The endpoint that looks for the page of a title in a space.
pub open spec fn title_search_endpoint(title: Seq<char>, space_key: Seq<char>) -> Seq<char> {
    "content/search?cql="@ + percent_encoded(
        encode_utf8("title=\""@ + title + "\" and space="@ + space_key),
    ) + "&limit=1&expand=version,space"@
}

/// The endpoint that lists the pages of a space.
pub open spec fn list_endpoint(container: Seq<char>) -> Seq<char> {
    "content/search?cql="@ + ("space="@ + percent_encoded(encode_utf8(container)))
        + "&expand=version,space&limit=100"@
}

/// The endpoint that looks for a text in the pages of a space.
pub open spec fn text_search_endpoint(space_key: Seq<char>, query: Seq<char>) -> Seq<char> {
    "content/search?cql="@ + ("space="@ + percent_encoded(encode_utf8(space_key)) + " and text~\""@
        + percent_encoded(encode_utf8(query)) + "\""@) + "&expand=version,space&limit=50"@
}

/// The body of a page in its storage form.
pub open spec fn page_body(content: Seq<char>) -> JsonModel {
    JsonModel::Object(
        seq![
            entry(
                "storage"@,
                JsonModel::Object(
                    seq![
                        entry("value"@, JsonModel::String(content)),
                        entry("representation"@, JsonModel::String("storage"@)),
                    ],
                ),
            ),
        ],
    )
}

/// The labels of a new page: each under the prefix `global`.
pub open spec fn label_documents(labels: Seq<Seq<char>>) -> Seq<JsonModel> {
    Seq::new(
        labels.len(),
        |i: int|
            JsonModel::Object(
                seq![
                    entry("prefix"@, JsonModel::String("global"@)),
                    entry("name"@, JsonModel::String(labels[i])),
                ],
            ),
    )
}

/// What every request for a new page holds: no identifier yet, the title,
/// the space, the body, and no version.
pub open spec fn new_page_members(title: Seq<char>, space_key: Seq<char>, content: Seq<char>) -> Seq<
    MemberModel,
> {
    seq![
        entry("id"@, JsonModel::String(Seq::empty())),
        entry("title"@, JsonModel::String(title)),
        entry("space"@, JsonModel::Object(seq![entry("key"@, JsonModel::String(space_key))])),
        entry("body"@, page_body(content)),
        entry("type"@, JsonModel::String("page"@)),
        entry("status"@, JsonModel::String("current"@)),
        entry("version"@, JsonModel::Null),
    ]
}

/// The members that name the parent of a new page, where it has one.
pub open spec fn parent_members(parent: Option<Seq<char>>) -> Seq<MemberModel> {
    match parent {
        Some(id) => seq![
            entry(
                "ancestors"@,
                JsonModel::Array(seq![JsonModel::Object(seq![entry("id"@, JsonModel::String(id))])]),
            ),
        ],
        None => Seq::empty(),
    }
}

/// The members that give a new page its labels, where there are any.
pub open spec fn label_members(labels: Seq<Seq<char>>) -> Seq<MemberModel> {
    if labels.len() == 0 {
        Seq::empty()
    } else {
        seq![
            entry(
                "metadata"@,
                JsonModel::Object(seq![entry("labels"@, JsonModel::Array(label_documents(labels)))]),
            ),
        ]
    }
}

/// The request for a new page: below the parent of the document or, where
/// it has none, the default parent; with the default labels.
pub open spec fn new_page(
    title: Seq<char>,
    space_key: Seq<char>,
    content: Seq<char>,
    parent: Option<Seq<char>>,
    labels: Seq<Seq<char>>,
) -> JsonModel {
    JsonModel::Object(
        new_page_members(title, space_key, content) + parent_members(parent) + label_members(
            labels,
        ),
    )
}

/// The request for a new version of a page.
pub open spec fn page_update(
    page_id: Seq<char>,
    title: Seq<char>,
    content: Seq<char>,
    version: int,
) -> JsonModel {
    JsonModel::Object(
        seq![
            entry("id"@, JsonModel::String(page_id)),
            entry("type"@, JsonModel::String("page"@)),
            entry("title"@, JsonModel::String(title)),
            entry("body"@, page_body(content)),
            entry("version"@, JsonModel::Object(seq![entry("number"@, JsonModel::Int(version))])),
        ],
    )
}

/// The parent of a new page: that of the document, else the default one.
pub open spec fn parent_of(document: Option<String>, default: Option<String>) -> Option<Seq<char>> {
    match document {
        Some(id) => Some(id@),
        None => match default {
            Some(id) => Some(id@),
            None => None,
        },
    }
}

/// The number of the next version of a page: one more than the present
/// one, and 1 where the page has none.
pub open spec fn next_version(current: Option<i32>) -> int {
    match current {
        Some(n) => n + 1,
        None => 1,
    }
}

/// How the provider signs in: with the user's name and token in Basic form
/// where there is a token, else as a bearer of nothing.
pub open spec fn auth_header(username: Seq<char>, token: Option<Seq<char>>) -> Seq<char> {
    match token {
        Some(t) => "Basic "@ + base64_text(username + ":"@ + t),
        None => "Bearer "@,
    }
}

/// The address of an endpoint of the site's interface.
pub open spec fn api_url(base_url: Seq<char>, path: Seq<char>) -> Seq<char> {
    trimmed_end(base_url, CharClass::Only('/')) + "/rest/api/"@ + trimmed_start(
        path,
        CharClass::Only('/'),
    )
}

/// The address of a page.
pub open spec fn page_url(base_url: Seq<char>, is_cloud: bool, space_key: Seq<char>, page_id: Seq<char>) -> Seq<
    char,
> {
    if is_cloud {
        trimmed_end(base_url, CharClass::Only('/')) + "/wiki/spaces/"@ + space_key + "/pages/"@
            + page_id
    } else {
        trimmed_end(base_url, CharClass::Only('/')) + "/pages/viewpage.action?pageId="@ + page_id
    }
}

/// A page with one section put in place: everything before the first
/// heading of the section, then the heading and the new content; and where
/// the page has no such heading, the page, then the heading and the new
/// content.
pub open spec fn with_section(page: Seq<char>, section: Seq<char>, content: Seq<char>) -> Seq<char> {
    match find(page, "h2. "@ + section) {
        Some(start) => page.subrange(0, start) + "\n"@ + ("h2. "@ + section) + "\n\n"@ + content,
        None => page + "\n\nh2. "@ + section + "\n\n"@ + content,
    }
}

/// Keeps documents as pages of one space of a Confluence site.
#[derive(Debug, Clone)]
pub struct ConfluenceProvider {
    config: ConfluenceConfig,
    auth_header: String,
}

impl ConfluenceProvider {
    /// The address of the site.
    pub closed spec fn site(&self) -> Seq<char> {
        self.config.base_url@
    }

    /// The configuration.
    pub closed spec fn settings(&self) -> ConfluenceConfig {
        self.config
    }

    /// The key of the space.
    pub closed spec fn space(&self) -> Seq<char> {
        self.config.space_key@
    }

    /// Whether the site is in the cloud.
    pub closed spec fn cloud(&self) -> bool {
        self.config.is_cloud
    }

    /// How the provider signs in.
    pub closed spec fn auth(&self) -> Seq<char> {
        self.auth_header@
    }

    /// A provider with this configuration, or nothing where the name and
    /// the token are too long to be put in a header.
    pub fn new(config: ConfluenceConfig) -> (provider: Option<Self>)
        ensures
            match provider {
                Some(p) => p.settings() == config && p.site() == config.base_url@ && p.space()
                    == config.space_key@ && p.cloud() == config.is_cloud && p.auth() == auth_header(
                    config.username@,
                    match config.api_token {
                        Some(t) => Some(t@),
                        None => None,
                    },
                ),
                None => config.api_token is Some && encode_utf8(
                    config.username@ + ":"@ + config.api_token->0@,
                ).len() > usize::MAX / 2,
            },
    {
        let auth = match &config.api_token {
            Some(token) => {
                let pair = concat3(config.username.as_str(), ":", token.as_str());
                if pair.as_str().as_bytes().len() > usize::MAX / 2 {
                    return None;
                }
                let encoded = base64_encode(pair.as_str());
                concat("Basic ", encoded.as_str())
            },
            None => "Bearer ".to_string(),
        };
        Some(Self { config, auth_header: auth })
    }

    /// The provider's name.
    pub fn name(&self) -> (name: &'static str)
        ensures
            name@ == "confluence"@,
    {
        "confluence"
    }

    /// How the provider signs in.
    pub fn auth_header(&self) -> (header: &str)
        ensures
            header@ == self.auth(),
    {
        self.auth_header.as_str()
    }

    /// The configuration.
    pub fn config(&self) -> (config: &ConfluenceConfig)
        ensures
            config.base_url@ == self.site(),
            config.is_cloud == self.cloud(),
            config.space_key@ == self.space(),
            *config == self.settings(),
    {
        &self.config
    }

    /// The address of the endpoint `path`.
    pub fn api_url(&self, path: &str) -> (url: String)
        ensures
            url@ == api_url(self.site(), path@),
    {
        let mut url = strip_end(self.config.base_url.as_str(), CharClass::Only('/'));
        url.append("/rest/api/");
        url.append(strip_start(path, CharClass::Only('/')).as_str());
        url
    }

    /// The address of the page `page_id` of the space `space_key`.
    pub fn page_url(&self, space_key: &str, page_id: &str) -> (url: String)
        ensures
            url@ == page_url(self.site(), self.cloud(), space_key@, page_id@),
    {
        let mut url = strip_end(self.config.base_url.as_str(), CharClass::Only('/'));
        if self.config.is_cloud {
            url.append("/wiki/spaces/");
            url.append(space_key);
            url.append("/pages/");
            url.append(page_id);
        } else {
            url.append("/pages/viewpage.action?pageId=");
            url.append(page_id);
        }
        url
    }

    /// The endpoint of the page `page_id`, with its body, version and
    /// space.
    pub fn get_page_by_id(page_id: &str) -> (endpoint: String)
        ensures
            endpoint@ == page_endpoint(page_id@),
    {
        concat3("content/", page_id, "?expand=body.storage,version,space")
    }

    /// The endpoint that looks for the page of a title in the space of the
    /// provider.
    pub fn search_page_by_title(&self, title: &str) -> (endpoint: String)
        ensures
            endpoint@ == title_search_endpoint(title@, self.space()),
    {
        let mut query = "title=\"".to_string();
        query.append(title);
        query.append("\" and space=");
        query.append(self.config.space_key.as_str());
        let mut endpoint = "content/search?cql=".to_string();
        endpoint.append(url_encode(query.as_str()).as_str());
        endpoint.append("&limit=1&expand=version,space");
        endpoint
    }

    /// The endpoint that lists the pages of the space `container`.
    pub fn list_documents(container: &str) -> (endpoint: String)
        ensures
            endpoint@ == list_endpoint(container@),
    {
        let cql = concat("space=", url_encode(container).as_str());
        concat3("content/search?cql=", cql.as_str(), "&expand=version,space&limit=100")
    }

    /// The endpoint that looks for `query` in the pages of the space of the
    /// provider.
    pub fn search_documents(&self, query: &str) -> (endpoint: String)
        ensures
            endpoint@ == text_search_endpoint(self.space(), query@),
    {
        let mut cql = "space=".to_string();
        cql.append(url_encode(self.config.space_key.as_str()).as_str());
        cql.append(" and text~\"");
        cql.append(url_encode(query).as_str());
        cql.append("\"");
        concat3("content/search?cql=", cql.as_str(), "&expand=version,space&limit=50")
    }

    /// The body of a page in its storage form.
    pub fn page_body(content: &str) -> (body: Json)
        ensures
            body@ == page_body(content@),
    {
        Json::object1(
            Member::new(
                "storage",
                Json::object2(
                    Member::new("value", Json::string(content)),
                    Member::new("representation", Json::string("storage")),
                ),
            ),
        )
    }

    /// The request that creates the page of a document.
    pub fn create_page(&self, doc: &Document) -> (request: Json)
        ensures
            request@ == new_page(
                doc.title@,
                self.space(),
                doc.content@,
                parent_of(doc.parent_id, self.settings().default_parent_id),
                views(self.settings().default_labels@),
            ),
    {
        let mut members: Vec<Member> = Vec::new();
        members.push(Member::new("id", Json::string("")));
        members.push(Member::new("title", Json::string(doc.title.as_str())));
        members.push(
            Member::new(
                "space",
                Json::object1(Member::new("key", Json::string(self.config.space_key.as_str()))),
            ),
        );
        members.push(Member::new("body", Self::page_body(doc.content.as_str())));
        members.push(Member::new("type", Json::string("page")));
        members.push(Member::new("status", Json::string("current")));
        members.push(Member::new("version", Json::Null));
        proof {
            reveal_strlit("");
            assert(""@ =~= Seq::<char>::empty());
            assert(member_models(members@) =~= new_page_members(
                doc.title@,
                self.space(),
                doc.content@,
            ));
        }
        let parent = match &doc.parent_id {
            Some(id) => Some(id),
            None => match &self.config.default_parent_id {
                Some(id) => Some(id),
                None => None,
            },
        };
        let ghost fixed = member_models(members@);
        match parent {
            Some(id) => {
                let ancestor = Json::object1(Member::new("id", Json::string(id.as_str())));
                let mut ancestors: Vec<Json> = Vec::new();
                ancestors.push(ancestor);
                let list = Json::array(ancestors);
                proof {
                    assert(list@->Array_0 =~= seq![ancestor@]);
                }
                members.push(Member::new("ancestors", list));
            },
            None => {},
        }
        proof {
            assert(member_models(members@) =~= fixed + parent_members(
                parent_of(doc.parent_id, self.config.default_parent_id),
            ));
        }
        let ghost with_parent = member_models(members@);
        if self.config.default_labels.len() > 0 {
            let mut labels: Vec<Json> = Vec::new();
            let mut i: usize = 0;
            while i < self.config.default_labels.len()
                invariant
                    i <= self.config.default_labels.len(),
                    labels.len() == i,
                    forall|k: int|
                        0 <= k < i ==> (#[trigger] labels@[k])@ == label_documents(
                            views(self.config.default_labels@),
                        )[k],
                decreases self.config.default_labels.len() - i,
            {
                labels.push(
                    Json::object2(
                        Member::new("prefix", Json::string("global")),
                        Member::new("name", Json::string(self.config.default_labels[i].as_str())),
                    ),
                );
                i += 1;
            }
            let list = Json::array(labels);
            proof {
                assert(list@->Array_0 =~= label_documents(views(self.config.default_labels@)));
            }
            members.push(Member::new("metadata", Json::object1(Member::new("labels", list))));
        }
        proof {
            assert(member_models(members@) =~= with_parent + label_members(
                views(self.config.default_labels@),
            ));
        }
        Json::object(members)
    }

    /// The request that puts a new version of a page in place.
    pub fn update_page_request(page_id: &str, title: &str, content: &str, version: i32) -> (request:
        Json)
        ensures
            request@ == page_update(page_id@, title@, content@, version as int),
    {
        let mut members: Vec<Member> = Vec::new();
        members.push(Member::new("id", Json::string(page_id)));
        members.push(Member::new("type", Json::string("page")));
        members.push(Member::new("title", Json::string(title)));
        members.push(Member::new("body", Self::page_body(content)));
        members.push(
            Member::new("version", Json::object1(Member::new("number", Json::Int(version as i64)))),
        );
        let request = Json::object(members);
        proof {
            assert(member_models(members@) =~= page_update(
                page_id@,
                title@,
                content@,
                version as int,
            )->Object_0);
        }
        request
    }

    /// The number of the next version of a page, where it fits.
    pub fn update_page(current: Option<i32>) -> (next: Option<i32>)
        ensures
            match next {
                Some(n) => n == next_version(current),
                None => next_version(current) > i32::MAX,
            },
    {
        match current {
            Some(n) => if n < i32::MAX {
                Some(n + 1)
            } else {
                None
            },
            None => Some(1),
        }
    }

    /// Whether the message of a failure says that a page is not there.
    pub fn is_missing(message: &str) -> (missing: bool)
        ensures
            missing == crate::text::contains(message@, "404"@),
    {
        crate::text::str_contains(message, "404")
    }

    /// The document that a page makes.
    pub fn convert_to_document(
        &self,
        id: String,
        title: String,
        content: String,
        space_key: &str,
        version: Option<u32>,
    ) -> (document: Document)
        ensures
            document.id == id,
            document.title == title,
            document.content == content,
            document.url is Some,
            document.url->0@ == page_url(self.site(), self.cloud(), space_key@, id@),
            document.parent_id is None,
            document.metadata.version == version,
            document.metadata.created_at is None,
            document.metadata.updated_at is None,
            document.metadata.author is None,
            document.metadata.labels@.len() == 0,
    {
        let url = self.page_url(space_key, id.as_str());
        Document {
            id,
            title,
            content,
            url: Some(url),
            parent_id: None,
            metadata: DocumentMetadata {
                created_at: None,
                updated_at: None,
                author: None,
                version,
                labels: Vec::new(),
            },
        }
    }

    /// The page `page` with `content` put in place as the section
    /// `section`.
    pub fn update_section(page: &str, section: &str, content: &str) -> (updated: String)
        ensures
            updated@ == with_section(page@, section@, content@),
    {
        let header = concat("h2. ", section);
        let text = chars_of(page);
        let needle = chars_of(header.as_str());
        match find_in(&text, &needle, 0) {
            Some(start) => {
                let mut updated = string_of(&text, 0, start);
                updated.append("\n");
                updated.append(header.as_str());
                updated.append("\n\n");
                updated.append(content);
                updated
            },
            None => {
                let mut updated = page.to_string();
                updated.append("\n\nh2. ");
                updated.append(section);
                updated.append("\n\n");
                updated.append(content);
                updated
            },
        }
    }
}

} // verus!
