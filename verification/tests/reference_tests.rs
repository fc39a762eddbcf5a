use ktme::doc::providers::confluence::ConfluenceProvider;
use ktme::doc::providers::markdown::MarkdownProvider;
use ktme::error::KtmeError;
use ktme::git::reader::GitReader;
use ktme::mcp::tools::ChangeSource;
use ktme::mcp::tools::McpTools;
use ktme::service_detector::ServiceDetector;
use ktme::text;
use ktme::text::CharClass;

const SAMPLES: [&str; 24] = [
    "",
    "name = \"ktme\"",
    "  name = \"ktme\"  ",
    "name = ktme",
    "name = \"a\" = \"b\"",
    "name = ",
    "name = \"\"",
    "name = \"\"\"",
    "name=\"x\"",
    "rename = \"x\"",
    "\tname = 'x'\r",
    "  \"name\": \"web\",",
    "\"name\": \"web\"",
    "\"name\":\"web\" , ",
    "\"name\": \"a:b\",",
    "\"name\": ,",
    "\"name\":",
    "module github.com/acme/tool",
    "module  plain  ",
    "  module github.com/acme/tool",
    "module \"quoted/name\"",
    "module github.com/acme/",
    "module",
    "module /",
];

fn assigned(content: &str) -> Option<String> {
    for line in content.lines() {
        if line.trim().starts_with("name = ") {
            let name_part = line.split('=').nth(1).unwrap_or("").trim();
            let name = name_part.trim_matches('"');
            if !name.is_empty() {
                return Some(name.to_string());
            }
        }
    }
    None
}

fn package(content: &str) -> Option<String> {
    for line in content.lines() {
        if line.trim().starts_with("\"name\":") {
            let name_part = line.split(':').nth(1).unwrap_or("").trim();
            let name = name_part.trim_matches('"').trim_matches(',');
            if !name.is_empty() {
                return Some(name.to_string());
            }
        }
    }
    None
}

fn module(content: &str) -> Option<String> {
    for line in content.lines() {
        if line.trim().starts_with("module ") {
            let module_part = line.strip_prefix("module ").unwrap_or("").trim();
            if let Some(name) = module_part.split('/').last() {
                let name = name.trim_matches('"');
                if !name.is_empty() {
                    return Some(name.to_string());
                }
            }
        }
    }
    None
}

fn contents() -> Vec<String> {
    let mut contents: Vec<String> = SAMPLES.iter().map(|s| s.to_string()).collect();
    for a in SAMPLES {
        for b in ["\n", "\r\n", "\n\n"] {
            contents.push(format!("[package]{}{}{}version = 1", b, a, b));
            contents.push(format!("{}{}name = \"later\"", a, b));
        }
    }
    contents
}

#[test]
fn names_are_read_as_the_standard_functions_read_them() {
    for content in contents() {
        assert_eq!(ServiceDetector::extract_name_from_cargo_toml(&content), assigned(&content), "{:?}", content);
        assert_eq!(ServiceDetector::extract_name_from_pyproject_toml(&content), assigned(&content), "{:?}", content);
        assert_eq!(ServiceDetector::extract_name_from_package_json(&content), package(&content), "{:?}", content);
        assert_eq!(ServiceDetector::extract_name_from_go_mod(&content), module(&content), "{:?}", content);
    }
}

#[test]
fn answers_are_read_as_the_standard_functions_read_them() {
    for response in ["", " ", "name", "  \"name\"  \nwhy", "'a'", "\"'a'\"", "'\"a\"'", "\n\nx", "a\r\nb", "\" \"", "''"] {
        let expected = {
            let name = response
                .trim()
                .lines()
                .next()
                .unwrap_or("unknown-service")
                .trim()
                .trim_matches('"')
                .trim_matches('\'');
            if name.is_empty() {
                "unknown-service".to_string()
            } else {
                name.to_string()
            }
        };
        assert_eq!(ServiceDetector::service_name_from_response(response), expected, "{:?}", response);
    }
}

#[test]
fn white_space_is_what_std_calls_white_space() {
    for code in 0..0x3100u32 {
        if let Some(c) = char::from_u32(code) {
            assert_eq!(CharClass::Whitespace.holds(c), c.is_whitespace(), "{:x}", code);
        }
    }
    for code in [0xFEFFu32, 0x1FFFF, 0x10FFFF, 0xE000] {
        let c = char::from_u32(code).unwrap();
        assert_eq!(CharClass::Whitespace.holds(c), c.is_whitespace());
    }
    for sample in ["", " ", " a ", "\u{2003}a b\u{85}", "a", "\t\n\r x \u{a0}", "\u{200b}a\u{200b}"] {
        assert_eq!(text::trim(sample), sample.trim());
        assert_eq!(text::strip_start(sample, CharClass::Whitespace), sample.trim_start());
        assert_eq!(text::strip_end(sample, CharClass::Whitespace), sample.trim_end());
    }
    for sample in ["", "/", "//a//", "a/b", "a"] {
        assert_eq!(text::strip(sample, CharClass::Only('/')), sample.trim_matches('/'));
        assert_eq!(text::strip_start(sample, CharClass::Only('/')), sample.trim_start_matches('/'));
        assert_eq!(text::strip_end(sample, CharClass::Only('/')), sample.trim_end_matches('/'));
    }
}

#[test]
fn text_is_found_as_std_finds_it() {
    for (sample, needle) in [
        ("", ""),
        ("abc", ""),
        ("abc", "c"),
        ("abc", "abcd"),
        ("aab", "ab"),
        ("héllo wörld", "wör"),
        ("a..b", ".."),
        ("ab", "ba"),
    ] {
        assert_eq!(text::str_contains(sample, needle), sample.contains(needle));
        assert_eq!(text::starts_with(sample, needle), sample.starts_with(needle));
        assert_eq!(text::str_eq(sample, needle), sample == needle);
    }
}

#[test]
fn ranges_are_read_as_a_split_in_two() {
    for range in ["", "a", "a..b", "a...b", "...", "....", ".....", "a..b..c", "..", "..a", "a..", "a.b", "x..y.z"] {
        let parts: Vec<&str> = range.split("..").collect();
        match GitReader::read_commit_range(range) {
            Ok(ends) => {
                assert_eq!(parts.len(), 2, "{:?}", range);
                assert_eq!(ends.start, parts[0]);
                assert_eq!(ends.end, parts[1]);
            }
            Err(KtmeError::InvalidInput(_)) => assert_ne!(parts.len(), 2, "{:?}", range),
            Err(_) => panic!("another failure"),
        }
    }
}

#[test]
fn sources_are_told_apart_as_before() {
    for source in ["commit:abc", "commit:", "staged", "a..b", "commit:a..b", "staged..", "file.json", "", "commit", "Staged"] {
        let found = McpTools::read_changes(source);
        if source.starts_with("commit:") {
            assert!(matches!(found, ChangeSource::Commit(r) if r == source[7..]));
        } else if source == "staged" {
            assert!(matches!(found, ChangeSource::Staged));
        } else if source.contains("..") {
            assert!(matches!(found, ChangeSource::Range(r) if r == source));
        } else {
            assert!(matches!(found, ChangeSource::File(p) if p == source));
        }
    }
}

#[test]
fn sections_are_put_in_place_as_before() {
    for (old, section, content) in [
        ("# T\n\n## Usage\nold\n## More\nx", "Usage", "new"),
        ("# T\n", "Usage", "new"),
        ("", "S", ""),
        ("## S", "S", "c"),
        ("a ## S b ## S c", "S", "c"),
        ("é\n## Sé\nz", "Sé", "ç"),
    ] {
        let header = format!("## {}", section);
        let expected = match old.find(&header) {
            Some(start) => format!("{}\n{}\n{}", &old[..start], header, content),
            None => format!("{}\n\n## {}\n{}", old, section, content),
        };
        assert_eq!(MarkdownProvider::update_section(old, section, content), expected);
        let header = format!("h2. {}", section);
        let page = old.replace("## ", "h2. ");
        let expected = match page.find(&header) {
            Some(start) => format!("{}\n{}\n\n{}", &page[..start], header, content),
            None => format!("{}\n\nh2. {}\n\n{}", page, section, content),
        };
        assert_eq!(ConfluenceProvider::update_section(&page, section, content), expected);
    }
}

#[test]
fn every_error_has_its_heading() {
    let d = || "x".to_string();
    for (error, message) in [
        (KtmeError::Git(d()), "Git operation failed: x"),
        (KtmeError::Mcp(d()), "MCP communication failed: x"),
        (KtmeError::Documentation(d()), "Documentation generation failed: x"),
        (KtmeError::Config(d()), "Configuration error: x"),
        (KtmeError::Storage(d()), "Storage operation failed: x"),
        (KtmeError::Confluence(d()), "Confluence API error: x"),
        (KtmeError::MappingNotFound(d()), "Service mapping not found: x"),
        (KtmeError::InvalidInput(d()), "Invalid input: x"),
        (KtmeError::Io(d()), "I/O error: x"),
        (KtmeError::Serialization(d()), "Serialization error: x"),
        (KtmeError::TomlDe(d()), "TOML deserialization error: x"),
        (KtmeError::TomlSer(d()), "TOML serialization error: x"),
        (KtmeError::Http(d()), "HTTP request error: x"),
        (KtmeError::NetworkError(d()), "Network error: x"),
        (KtmeError::ApiError(d()), "API error: x"),
        (KtmeError::DeserializationError(d()), "Deserialization error: x"),
        (KtmeError::ConfigError(d()), "Configuration error: x"),
        (KtmeError::SerializationError(d()), "Serialization error: x"),
        (KtmeError::UnsupportedProvider(d()), "Unsupported provider: x"),
        (KtmeError::DocumentNotFound(d()), "Document not found: x"),
        (KtmeError::DocumentExists(d()), "Document already exists: x"),
        (KtmeError::Unknown(d()), "Unknown error: x"),
    ] {
        assert_eq!(error.message(), message);
        assert_eq!(error.duplicate().message(), message);
    }
}
