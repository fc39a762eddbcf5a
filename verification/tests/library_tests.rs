use ktme::ai::client::AIClient;
use ktme::cli::commands::extract;
use ktme::cli::commands::generate;
use ktme::cli::commands::generate::DiffOrigin;
use ktme::cli::commands::generate::OutputFormat;
use ktme::cli::commands::init;
use ktme::cli::commands::mapping;
use ktme::cli::commands::mcp;
use ktme::ai::client::ProviderKind;
use ktme::ai::prompts::PromptTemplates;
use ktme::ai::providers::AIProvider;
use ktme::ai::providers::AIProviderFactory;
use ktme::ai::providers::MockProvider;
use ktme::config::types::ConfluenceConfig as ConfluenceSettings;
use ktme::config::types::DocumentationConfig;
use ktme::config::types::GeneralConfig;
use ktme::config::types::GitConfig;
use ktme::config::types::StorageConfig;
use ktme::doc::generator::DocumentGenerator;
use ktme::doc::providers::config::ConfluenceConfig;
use ktme::doc::providers::config::MarkdownConfig;
use ktme::doc::providers::config::ProviderConfig;
use ktme::doc::providers::config::ProviderRegistry;
use ktme::doc::providers::confluence::ConfluenceProvider;
use ktme::doc::providers::markdown::MarkdownProvider;
use ktme::doc::providers::Document;
use ktme::doc::providers::DocumentMetadata;
use ktme::doc::providers::ProviderFactory;
use ktme::doc::providers::PublishStatus;
use ktme::doc::templates::TemplateEngine;
use ktme::error::KtmeError;
use ktme::git::diff::DiffExtractor;
use ktme::git::diff::DiffRequest;
use ktme::git::diff::DiffSummary;
use ktme::git::diff::ExtractedDiff;
use ktme::git::diff::FileChange;
use ktme::git::reader::DeltaKind;
use ktme::git::reader::DiffLine;
use ktme::git::reader::GitReader;
use ktme::json::Json;
use ktme::mcp::tools::McpTools;
use ktme::service_detector::DirectoryProbe;
use ktme::service_detector::ServiceDetector;
use ktme::storage::database::DatabaseStats;
use ktme::storage::discovery::ServiceDiscovery;
use ktme::storage::discovery::WalkEntry;
use ktme::storage::mapping::Mappings;
use ktme::storage::mapping::StorageManager;
use ktme::storage::models::FeatureType;
use ktme::storage::models::GenerationAction;
use ktme::storage::models::GenerationStatus;
use ktme::storage::models::RelationType;
use ktme::storage::models::SearchContentType;
use ktme::storage::models::SourceType;
use ktme::text;
use ktme::text::CharClass;

fn detector() -> ServiceDetector {
    ServiceDetector::from_directory("/work/my-service".to_string())
}

fn change(path: &str, status: &str, additions: u32, deletions: u32, diff: &str) -> FileChange {
    FileChange {
        path: path.to_string(),
        status: status.to_string(),
        additions,
        deletions,
        diff: diff.to_string(),
    }
}

fn diff() -> ExtractedDiff {
    ExtractedDiff {
        source: "commit".to_string(),
        identifier: "abc123".to_string(),
        timestamp: "2024-01-01T00:00:00+00:00".to_string(),
        author: "Ann".to_string(),
        message: "  Fix the parser\n".to_string(),
        files: vec![change("src/a.rs", "modified", 12, 3, "+x"), change("b.md", "added", 1, 0, "+y\n-z")],
        summary: DiffSummary { total_files: 2, total_additions: 13, total_deletions: 3 },
    }
}

#[test]
fn test_service_detector_creation() {
    let detector = ServiceDetector::from_directory(".".to_string());
    assert_eq!(detector.current_dir(), ".");
}

#[test]
fn test_valid_service_name() {
    let detector = detector();

    assert!(detector.is_valid_service_name("my-service"));
    assert!(detector.is_valid_service_name("user-api"));

    assert!(!detector.is_valid_service_name(""));
    assert!(!detector.is_valid_service_name("unknown-service"));
    assert!(!detector.is_valid_service_name("app"));
}

#[test]
fn a_service_name_has_two_to_fifty_bytes() {
    let detector = detector();
    assert!(!detector.is_valid_service_name("project"));
    assert!(!detector.is_valid_service_name("a"));
    assert!(detector.is_valid_service_name("ab"));
    assert!(detector.is_valid_service_name("é"));
    assert!(detector.is_valid_service_name(&"x".repeat(50)));
    assert!(!detector.is_valid_service_name(&"x".repeat(51)));
    assert!(!detector.is_valid_service_name(&"é".repeat(26)));
}

#[test]
fn names_are_read_from_project_files() {
    assert_eq!(
        ServiceDetector::extract_name_from_cargo_toml("[package]\n  name = \"ktme\"\nversion = \"1\"\n"),
        Some("ktme".to_string())
    );
    assert_eq!(ServiceDetector::extract_name_from_cargo_toml("name=\"x\"\n"), None);
    assert_eq!(ServiceDetector::extract_name_from_cargo_toml("name = \"\"\nname = \"second\""), Some("second".to_string()));
    assert_eq!(ServiceDetector::extract_name_from_cargo_toml("name = a = b"), Some("a".to_string()));
    assert_eq!(
        ServiceDetector::extract_name_from_pyproject_toml("[project]\r\nname = \"py\"\r\n"),
        Some("py".to_string())
    );
    assert_eq!(
        ServiceDetector::extract_name_from_package_json("{\n  \"name\": \"web\",\n  \"version\": \"1\"\n}"),
        Some("web\"".to_string())
    );
    assert_eq!(
        ServiceDetector::extract_name_from_package_json("{\n  \"name\": \"web\"\n}"),
        Some("web".to_string())
    );
    assert_eq!(
        ServiceDetector::extract_name_from_go_mod("module github.com/acme/tool\n\ngo 1.21\n"),
        Some("tool".to_string())
    );
    assert_eq!(ServiceDetector::extract_name_from_go_mod("  module github.com/acme/tool\n"), None);
    assert_eq!(ServiceDetector::extract_name_from_go_mod("module plain"), Some("plain".to_string()));
    assert_eq!(ServiceDetector::extract_name_from_go_mod("go 1.21\n"), None);
}

#[test]
fn project_files_are_asked_in_order() {
    assert_eq!(
        ServiceDetector::detect_from_project_indicators(
            Some("name = \"rust\""),
            Some("\"name\": \"node\""),
            None,
            None
        ),
        Some("rust".to_string())
    );
    assert_eq!(
        ServiceDetector::detect_from_project_indicators(
            Some("[package]"),
            None,
            Some("module a/b"),
            Some("name = \"py\"")
        ),
        Some("b".to_string())
    );
    assert_eq!(ServiceDetector::detect_from_project_indicators(None, None, None, None), None);
}

#[test]
fn the_service_name_is_the_first_that_is_known() {
    let detector = detector();
    let some = |s: &str| Some(s.to_string());
    assert_eq!(detector.detect_service_name(some("repo"), some("proj"), some("dir")), "repo");
    assert_eq!(detector.detect_service_name(None, some("proj"), some("dir")), "proj");
    assert_eq!(detector.detect_service_name(None, None, some("dir")), "dir");
    assert_eq!(detector.detect_service_name(None, None, None), "unknown-service");
    assert_eq!(detector.detect_with_ai_fallback(some("good-name")), some("good-name"));
    assert_eq!(detector.detect_with_ai_fallback(some("app")), None);
    assert_eq!(detector.detect_with_ai_fallback(None), None);
}

#[test]
fn the_repository_is_the_first_directory_with_git() {
    let detector = detector();
    let probe = |path: &str, has_git: bool| DirectoryProbe { path: path.to_string(), has_git };
    let probes = vec![probe("/a/b/c", false), probe("/a/b", true), probe("/a", true), probe("/", false)];
    assert_eq!(detector.get_git_repository_root(&probes), Some("/a/b".to_string()));
    assert_eq!(detector.detect_from_git_repository(&probes), Some("/a/b".to_string()));
    let info = detector.get_repository_info(&probes);
    assert!(info.is_git_repository);
    assert_eq!(info.repository_root, Some("/a/b".to_string()));
    assert_eq!(info.current_dir, "/work/my-service");
    let none = vec![probe("/x", false)];
    assert_eq!(detector.get_git_repository_root(&none), None);
    assert!(!detector.get_repository_info(&none).is_git_repository);
    assert_eq!(detector.get_git_repository_root(&vec![]), None);
}

#[test]
fn the_answer_is_stripped_to_a_name() {
    assert_eq!(ServiceDetector::service_name_from_response("  \"user-api\"\nbecause\n"), "user-api");
    assert_eq!(ServiceDetector::service_name_from_response("'x'"), "x");
    assert_eq!(ServiceDetector::service_name_from_response(""), "unknown-service");
    assert_eq!(ServiceDetector::service_name_from_response("  \n "), "unknown-service");
    assert_eq!(ServiceDetector::service_name_from_response("\"\""), "unknown-service");
    assert_eq!(ServiceDetector::service_name_from_response("name \r\nmore"), "name");
}

#[test]
fn the_listing_holds_ten_entries_at_most() {
    let names: Vec<String> = (0..12).map(|i| format!("f{}", i)).collect();
    let text = ServiceDetector::directory_listing(&names);
    assert!(text.starts_with("Directory contents:\n  - f0\n  - f1\n"));
    assert!(text.ends_with("  - f9\n"));
    assert_eq!(text.lines().count(), 11);
    assert_eq!(ServiceDetector::directory_listing(&vec![]), "Directory contents:\n");
}

#[test]
fn text_is_searched_and_stripped() {
    assert!(text::str_eq("é", "é"));
    assert!(!text::str_eq("a", "b"));
    assert!(!text::str_eq("a", "ab"));
    assert!(text::starts_with("commit:1", "commit:"));
    assert!(!text::starts_with("comm", "commit:"));
    assert!(text::starts_with("x", ""));
    assert!(text::str_contains("a..b", ".."));
    assert!(!text::str_contains("a.b", ".."));
    assert!(text::str_contains("", ""));
    assert_eq!(text::skip("héllo", 2), "llo");
    assert_eq!(text::trim(" \t a b\u{3000}\r\n"), "a b");
    assert_eq!(text::trim("\u{a0}"), "");
    assert_eq!(text::strip("\"\"x\"", CharClass::Only('"')), "x");
    assert_eq!(text::strip_start("//a/", CharClass::Only('/')), "a/");
    assert_eq!(text::strip_end("//a//", CharClass::Only('/')), "//a");
    assert_eq!(text::decimal_string(0), "0");
    assert_eq!(text::decimal_string(4096), "4096");
    assert_eq!(text::decimal_string(u64::MAX), "18446744073709551615");
    assert_eq!(text::join(&vec!["a".to_string(), "".to_string(), "c".to_string()], ", "), "a, , c");
    assert_eq!(text::concat3("a", "b", "c"), "abc");
    assert_eq!(text::from_chars(&text::chars_of("añ")), "añ");
}

#[test]
fn text_is_replaced_like_std_does() {
    for (text, pattern, to) in [
        ("a{{X}}b{{X}}", "{{X}}", "1"),
        ("aaa", "aa", "b"),
        ("abc", "", "-"),
        ("", "", "-"),
        ("", "x", "y"),
        ("abc", "abc", ""),
        ("héllo", "l", "ll"),
        ("no match", "zz", "y"),
    ] {
        assert_eq!(text::replace(text, pattern, to), text.replace(pattern, to));
    }
    assert_eq!(text::text_of("é".as_bytes()), Some("é"));
    assert_eq!(text::text_of(b"\xff"), None);
    assert_eq!(text::text_of(b""), Some(""));
}

#[test]
fn lines_are_split_like_std_does() {
    for sample in ["", "a", "a\n", "a\r\n", "a\n\nb", "\n", "a\r", "a\r\nb\r", "x\n\r\ny\n", "\r\n\r\n"] {
        let expected: Vec<String> = sample.lines().map(|l| l.to_string()).collect();
        assert_eq!(text::lines(sample), expected, "{:?}", sample);
    }
}

#[test]
fn prompts_are_put_together() {
    let diff = diff();
    assert_eq!(
        PromptTemplates::format_diff_summary(&diff),
        "Commit: abc123\nAuthor: Ann\nTimestamp: 2024-01-01T00:00:00+00:00\nMessage: Fix the parser\nFiles changed: 2 (+13/-3)"
    );
    assert_eq!(
        PromptTemplates::format_diff_content(&diff),
        "\n## File: src/a.rs (modified)\n```\n+x\n```\n\n## File: b.md (added)\n```\n+y\n-z\n```\n"
    );
    let prompt = PromptTemplates::generate_documentation_prompt(&diff, "changelog", None).unwrap();
    assert!(prompt.starts_with("You are a technical writer generating changelog entries."));
    assert!(prompt.contains("- Use bullet points with hyphens\n\nCommit: abc123\n"));
    assert!(prompt.ends_with("(+13/-3)\n\nChanges:\n\n## File: src/a.rs (modified)\n```\n+x\n```\n\n## File: b.md (added)\n```\n+y\n-z\n```\n"));
    let with_context =
        PromptTemplates::generate_documentation_prompt(&diff, "nothing-special", Some("ctx")).unwrap();
    assert!(with_context.starts_with("You are a technical documentation specialist."));
    assert!(with_context.contains("Markdown format.\n\n\nAdditional Context:\nctx\nCommit: abc123"));
    assert!(PromptTemplates::api_doc_prompt().starts_with("You are a technical writer documenting API changes."));
    assert!(PromptTemplates::readme_prompt().contains("**Migration notes**"));
    assert!(PromptTemplates::commit_message_prompt().ends_with("Explain what and why, not how"));
    assert!(PromptTemplates::generate_documentation_prompt(&diff, "readme", None)
        .unwrap()
        .starts_with("You are a technical writer updating README documentation."));
    assert!(PromptTemplates::generate_documentation_prompt(&diff, "api-doc", None)
        .unwrap()
        .starts_with(&PromptTemplates::api_doc_prompt()));
    assert!(PromptTemplates::generate_documentation_prompt(&diff, "commit-message", None)
        .unwrap()
        .starts_with(&PromptTemplates::commit_message_prompt()));
    assert_eq!(PromptTemplates::format_diff_content(&ExtractedDiff::default()), "");
}

#[test]
fn the_mock_provider_picks_its_text_by_the_prompt() {
    let provider = MockProvider::new();
    assert_eq!(provider.provider_name(), "Mock");
    assert!(provider.generate("document the API").unwrap().starts_with("# API Documentation\n\n## Overview\n"));
    assert!(provider.generate("an endpoint").unwrap().starts_with("# API Documentation"));
    assert!(provider.generate("the service").unwrap().starts_with("# Service Documentation"));
    assert!(provider.generate("functionality").unwrap().contains("## Core Features"));
    let plain = provider.generate("hello").unwrap();
    assert!(plain.starts_with("# Documentation\n\n## Summary\n"));
    assert!(plain.ends_with("*Generated by ktme mock provider*"));
    let client = AIClient::new(AIProviderFactory::create_mock().unwrap());
    assert_eq!(client.provider_name(), "Mock");
    assert_eq!(client.generate_documentation("hello").unwrap(), plain);
    assert_eq!(client.test_connection().unwrap(), true);
}

struct SilentProvider;

impl AIProvider for SilentProvider {
    fn generate(&self, prompt: &str) -> Result<String, KtmeError> {
        Err(KtmeError::NetworkError(format!("no answer to {}", prompt)))
    }

    fn provider_name(&self) -> &'static str {
        "Silent"
    }
}

#[test]
fn the_client_hands_on_what_its_provider_gives() {
    let client = AIClient::new(Box::new(SilentProvider));
    assert_eq!(client.provider_name(), "Silent");
    assert_eq!(client.test_connection().unwrap(), false);
    match client.generate_documentation("p") {
        Err(e) => assert_eq!(e.message(), "Network error: no answer to p"),
        Ok(_) => panic!("the silent provider answered"),
    }
    assert_eq!(AIClient::connection_status(&Ok("text".to_string())).unwrap(), true);
    assert_eq!(AIClient::connection_status(&Err(KtmeError::ApiError("x".to_string()))).unwrap(), false);
    let mock = AIClient::new(Box::new(MockProvider::new()));
    assert_eq!(mock.provider_name(), "Mock");
    assert_eq!(mock.test_connection().unwrap(), true);
    assert_eq!(mock.generate_documentation("an endpoint").unwrap(), MockProvider::documentation("an endpoint"));
    let made = AIProviderFactory::create_mock().unwrap();
    assert_eq!(made.provider_name(), "Mock");
    assert_eq!(made.generate("the service").unwrap(), MockProvider::documentation("the service"));
}

#[test]
fn test_ai_client_fails_without_key() {
    let result = AIClient::choose_provider(false, false);
    assert!(result.is_err());

    if let Err(e) = result {
        match e {
            KtmeError::Config(msg) => assert!(msg.contains("AI provider")),
            _ => panic!("Expected Config error"),
        }
    }
}

#[test]
fn the_provider_follows_the_keys() {
    assert_eq!(AIClient::choose_provider(true, true).unwrap(), ProviderKind::OpenAI);
    assert_eq!(AIClient::choose_provider(true, false).unwrap(), ProviderKind::OpenAI);
    assert_eq!(AIClient::choose_provider(false, true).unwrap(), ProviderKind::Claude);
    assert_eq!(AIClient::max_tokens(None), 4096);
    assert_eq!(AIClient::max_tokens(Some("2048")), 2048);
    assert_eq!(AIClient::max_tokens(Some("+7")), 7);
    assert_eq!(AIClient::max_tokens(Some("")), 4096);
    assert_eq!(AIClient::max_tokens(Some("+")), 4096);
    assert_eq!(AIClient::max_tokens(Some("-1")), 4096);
    assert_eq!(AIClient::max_tokens(Some("12 ")), 4096);
    assert_eq!(AIClient::max_tokens(Some("4294967295")), u32::MAX);
    assert_eq!(AIClient::max_tokens(Some("4294967296")), 4096);
    assert_eq!(ktme::ai::providers::default_model(), "gpt-3.5-turbo");
    assert_eq!(ktme::ai::providers::default_max_tokens(), 4096);
}

#[test]
fn configuration_has_its_defaults() {
    let general = GeneralConfig::default();
    assert_eq!(general.temp_directory, "/tmp/ktme");
    assert_eq!(general.log_level, "info");
    let git = GitConfig::default();
    assert_eq!(git.default_branch, "main");
    assert!(!git.include_merge_commits);
    assert_eq!(git.max_commit_range, 100);
    let documentation = DocumentationConfig::default();
    assert_eq!(documentation.default_format, "markdown");
    assert!(documentation.template_directory.is_none());
    assert!(documentation.include_metadata);
    let confluence = ConfluenceSettings::default();
    assert_eq!(confluence.auth_type, "token");
    assert!(confluence.base_url.is_none() && confluence.api_token.is_none());
    let storage = StorageConfig::default();
    assert!(storage.mappings_file.is_none());
    assert!(!storage.auto_discover);
    assert_eq!(ktme::config::types::default_timeout(), 120);
    assert_eq!(ktme::config::types::default_max_tokens(), 4096);
    let markdown = ktme::storage::models::MarkdownConfig::default();
    assert_eq!(markdown.base_path, ".");
    assert_eq!(markdown.extension, "md");
    assert!(markdown.auto_create_dirs);
    assert!(ktme::doc::providers::config::default_true());
    assert_eq!(ktme::doc::providers::config::default_extension(), "md");
}

#[test]
fn documents_are_generated_and_updated() {
    let generator = DocumentGenerator::new(None);
    assert!(generator.template().is_none());
    assert_eq!(generator.generate("body").unwrap(), "# Generated Documentation\n\nbody");
    assert_eq!(generator.update("old", "new").unwrap(), "old\n\n## Update\n\nnew");
}

#[test]
fn templates_are_kept_by_name() {
    let mut engine = TemplateEngine::new();
    assert_eq!(engine.get_template("a"), None);
    engine.load_template("a", "one".to_string());
    engine.load_template("b", "two".to_string());
    engine.load_template("a", "three".to_string());
    assert_eq!(engine.get_template("a"), Some("three"));
    assert_eq!(engine.get_template("b"), Some("two"));
    assert_eq!(engine.get_template("c"), None);
    assert_eq!(engine.render("a", &vec![]).unwrap(), "Rendered content");
    assert_eq!(TemplateEngine::default().get_template("a"), None);
}

#[test]
fn test_provider_registry() {
    let mut registry = ProviderRegistry::new();

    let config = ProviderConfig {
        id: 1,
        provider_type: "confluence".to_string(),
        config: Json::empty_object(),
        is_default: true,
        created_at: "2024-01-01T00:00:00Z".to_string(),
        updated_at: "2024-01-01T00:00:00Z".to_string(),
    };

    registry.add_provider(config);

    assert!(registry.get_provider("confluence").is_some());
    assert!(registry.get_default_provider().is_some());
    assert_eq!(registry.list_providers().len(), 1);
}

#[test]
fn the_registry_holds_one_provider_per_type() {
    let config = |id: i64, kind: &str, is_default: bool| ProviderConfig {
        id,
        provider_type: kind.to_string(),
        config: Json::Null,
        is_default,
        created_at: String::new(),
        updated_at: String::new(),
    };
    let mut registry = ProviderRegistry::new();
    assert!(registry.get_default_provider().is_none());
    registry.add_provider(config(1, "markdown", false));
    assert!(registry.get_default_provider().is_none());
    registry.add_provider(config(2, "confluence", true));
    registry.add_provider(config(3, "markdown", false));
    assert_eq!(registry.list_providers().len(), 2);
    assert_eq!(registry.get_provider("markdown").unwrap().id, 3);
    assert_eq!(registry.get_default_provider().unwrap().id, 2);
    assert!(registry.get_provider("other").is_none());
    registry.add_provider(config(4, "markdown", true));
    assert_eq!(registry.get_default_provider().unwrap().id, 4);
}

#[test]
fn test_provider_factory_confluence() {
    let provider = ProviderFactory::create("confluence");
    assert!(provider.is_ok());
}

#[test]
fn test_provider_factory_unsupported() {
    let provider = ProviderFactory::create("unsupported");
    assert!(provider.is_err());
    assert_eq!(
        provider.unwrap_err().message(),
        "Unsupported provider: Provider 'unsupported' is not supported"
    );
    assert!(ProviderFactory::create("markdown").is_ok());
}

fn confluence(base_url: &str, token: Option<&str>, is_cloud: bool) -> ConfluenceProvider {
    ConfluenceProvider::new(ConfluenceConfig {
        base_url: base_url.to_string(),
        username: "test@example.com".to_string(),
        api_token: token.map(|t| t.to_string()),
        space_key: "DEV".to_string(),
        default_parent_id: None,
        default_labels: vec!["documentation".to_string()],
        is_cloud,
    })
    .unwrap()
}

#[test]
fn test_confluence_provider_creation() {
    let provider = confluence("https://example.atlassian.net", Some("token"), true);
    assert_eq!(provider.name(), "confluence");
    assert!(!provider.auth_header().is_empty());
}

#[test]
fn test_api_url_construction() {
    let provider = confluence("https://example.atlassian.net/", Some("token"), true);
    assert_eq!(
        provider.api_url("content/123"),
        "https://example.atlassian.net/rest/api/content/123"
    );
    assert_eq!(
        provider.api_url("/content/123"),
        "https://example.atlassian.net/rest/api/content/123"
    );
}

#[test]
fn confluence_signs_in_and_names_its_pages() {
    let provider = confluence("https://example.atlassian.net//", Some("token"), true);
    assert_eq!(provider.auth_header(), "Basic dGVzdEBleGFtcGxlLmNvbTp0b2tlbg==");
    assert_eq!(provider.page_url("DEV", "42"), "https://example.atlassian.net/wiki/spaces/DEV/pages/42");
    let server = confluence("https://wiki.local", None, false);
    assert_eq!(server.auth_header(), "Bearer ");
    assert_eq!(server.page_url("DEV", "42"), "https://wiki.local/pages/viewpage.action?pageId=42");
    let document = server.convert_to_document("42".to_string(), "T".to_string(), "C".to_string(), "DEV", Some(3));
    assert_eq!(document.url.as_deref(), Some("https://wiki.local/pages/viewpage.action?pageId=42"));
    assert_eq!(document.metadata.version, Some(3));
    assert!(document.parent_id.is_none());
    assert_eq!(
        ConfluenceProvider::update_section("intro\nh2. Usage\nold\nh2. More\nx", "Usage", "new"),
        "intro\n\nh2. Usage\n\nnew"
    );
    assert_eq!(ConfluenceProvider::update_section("intro", "Usage", "new"), "intro\n\nh2. Usage\n\nnew");
}

#[test]
fn confluence_names_its_endpoints() {
    let provider = confluence("https://example.atlassian.net", Some("token"), true);
    assert_eq!(
        ConfluenceProvider::get_page_by_id("123"),
        "content/123?expand=body.storage,version,space"
    );
    assert_eq!(
        provider.search_page_by_title("My Page & more"),
        "content/search?cql=title%3D%22My%20Page%20%26%20more%22%20and%20space%3DDEV&limit=1&expand=version,space"
    );
    assert_eq!(
        ConfluenceProvider::list_documents("DEV space"),
        "content/search?cql=space=DEV%20space&expand=version,space&limit=100"
    );
    assert_eq!(
        provider.search_documents("é~a_b-c.d"),
        "content/search?cql=space=DEV and text~\"%C3%A9~a_b-c.d\"&expand=version,space&limit=50"
    );
    assert_eq!(ConfluenceProvider::update_page(None), Some(1));
    assert_eq!(ConfluenceProvider::update_page(Some(4)), Some(5));
    assert_eq!(ConfluenceProvider::update_page(Some(i32::MAX)), None);
    assert!(ConfluenceProvider::is_missing("Confluence API error: 404 Not Found - gone"));
    assert!(!ConfluenceProvider::is_missing("Confluence API error: 500"));
}

#[test]
fn confluence_writes_its_requests() {
    let provider = ConfluenceProvider::new(ConfluenceConfig {
        base_url: "https://example.atlassian.net".to_string(),
        username: "u".to_string(),
        api_token: None,
        space_key: "DEV".to_string(),
        default_parent_id: Some("7".to_string()),
        default_labels: vec!["docs".to_string(), "auto".to_string()],
        is_cloud: true,
    })
    .unwrap();
    let mut document = Document {
        id: String::new(),
        title: "T".to_string(),
        content: "<p>c</p>".to_string(),
        url: None,
        parent_id: None,
        metadata: DocumentMetadata::default(),
    };
    assert_eq!(
        provider.create_page(&document).to_text(),
        r#"{"ancestors":[{"id":"7"}],"body":{"storage":{"representation":"storage","value":"<p>c</p>"}},"id":"","metadata":{"labels":[{"name":"docs","prefix":"global"},{"name":"auto","prefix":"global"}]},"space":{"key":"DEV"},"status":"current","title":"T","type":"page","version":null}"#
    );
    document.parent_id = Some("9".to_string());
    assert_eq!(provider.create_page(&document).get("ancestors").unwrap().to_text(), r#"[{"id":"9"}]"#);
    let plain = confluence("https://wiki.local", None, false);
    let request = plain.create_page(&document);
    assert!(request.get("metadata").is_some());
    document.parent_id = None;
    assert!(plain.create_page(&document).get("ancestors").is_none());
    assert_eq!(
        ConfluenceProvider::update_page_request("42", "T", "c", 3).to_text(),
        r#"{"body":{"storage":{"representation":"storage","value":"c"}},"id":"42","title":"T","type":"page","version":{"number":3}}"#
    );
}

#[test]
fn the_commands_pick_their_sources() {
    let some = |s: &str| Some(s.to_string());
    let extractor = extract::execute(some("HEAD"), true, Some(1), None).unwrap();
    assert_eq!((extractor.source.as_str(), extractor.identifier.as_str()), ("commit", "HEAD"));
    let extractor = extract::execute(None, true, Some(1), None).unwrap();
    assert_eq!((extractor.source.as_str(), extractor.identifier.as_str()), ("staged", "staged"));
    assert_eq!(
        extract::execute(None, false, Some(1), None).unwrap_err().message(),
        "Unsupported provider: PR extraction for github is not yet implemented"
    );
    assert_eq!(
        extract::execute(None, false, Some(1), some("gitlab")).unwrap_err().message(),
        "Unsupported provider: PR extraction for gitlab is not yet implemented"
    );
    assert_eq!(
        extract::execute(None, false, None, None).unwrap_err().message(),
        "Invalid input: No source specified. Use --commit, --staged, or --pr"
    );
    assert!(matches!(
        generate::execute(some("HEAD"), some("in.json"), None, true),
        Ok(DiffOrigin::InputFile(p)) if p == "in.json"
    ));
    assert!(matches!(
        generate::execute(some("HEAD"), None, None, true),
        Ok(DiffOrigin::Repository(e)) if e.source == "commit" && e.identifier == "HEAD"
    ));
    assert!(matches!(
        generate::execute(None, None, Some(2), true),
        Ok(DiffOrigin::Repository(e)) if e.source == "staged"
    ));
    assert_eq!(
        generate::execute(None, None, Some(2), false).unwrap_err().message(),
        "Unsupported provider: PR-based documentation generation is not yet implemented"
    );
    assert_eq!(
        generate::execute(None, None, None, false).unwrap_err().message(),
        "Invalid input: No source specified. Use --commit, --input, --staged, or --pr"
    );
    assert_eq!(generate::doc_type(None), "general");
    assert_eq!(generate::doc_type(Some("readme")), "readme");
    assert_eq!(generate::output_format(Some("json")), OutputFormat::Json);
    assert_eq!(generate::output_format(Some("md")), OutputFormat::Markdown);
    assert_eq!(generate::output_format(None), OutputFormat::Markdown);
}

#[test]
fn the_commands_write_their_texts() {
    let diff = diff();
    assert_eq!(
        extract::print_diff_summary(&diff),
        "\n📊 Diff Summary\nSource: commit\nIdentifier: abc123\nAuthor: Ann\nTimestamp: 2024-01-01T00:00:00+00:00\nMessage:   Fix the parser\n\nFiles changed: 2\nAdditions: +13\nDeletions: -3\n\n📁 Files:\n  ✏️ src/a.rs (+12/-3)\n  🆕 b.md (+1/-0)\n"
    );
    assert!(extract::print_diff_summary(&ExtractedDiff::default()).ends_with("Deletions: -0\n"));
    assert_eq!(extract::icon("deleted"), "🗑️");
    assert_eq!(extract::icon("renamed"), "🔄");
    assert_eq!(extract::icon("copied"), "📄");
    assert_eq!(
        generate::load_custom_template("{{SERVICE}} by {{AUTHOR}}: {{FILES_CHANGED}}/{{ADDITIONS}}/{{DELETIONS}} {{AUTHOR}}", &diff),
        "commit by Ann: 2/13/3 Ann\n\nChanges:\n\n## File: src/a.rs (modified)\n```\n+x\n```\n\n## File: b.md (added)\n```\n+y\n-z\n```\n"
    );
    assert_eq!(
        generate::format_documentation("body", "readme", "svc", "2024-01-01 10:00 UTC"),
        "# Documentation for svc\n\n**Type**: readme\n**Generated**: 2024-01-01 10:00 UTC\n\n---\n\nbody"
    );
    assert_eq!(init::execute(true, false), init::Setup::Skip);
    assert_eq!(init::execute(true, true), init::Setup::Proceed);
    assert_eq!(init::execute(false, false), init::Setup::Proceed);
    assert_eq!(init::create_docs_structure(), vec!["api", "guides", "examples"]);
    assert_eq!(init::initialize_knowledge_graph("svc"), "Documentation and knowledge graph for svc");
    let pages = init::create_initial_docs("svc");
    assert_eq!(pages.len(), 4);
    assert_eq!(pages[0].file_name, "README.md");
    assert!(pages[0].content.starts_with("# svc Documentation\n\nWelcome to the svc documentation!\n"));
    assert!(pages[1].content.starts_with("# svc Architecture\n"));
    assert!(pages[2].content.starts_with("# svc API Documentation\n"));
    assert!(pages[3].content.starts_with("# svc Change Log\n\n## [Unreleased]\n"));
    assert_eq!(pages[3].file_name, "changelog.md");
    let config = mcp::start(true);
    assert_eq!((config.transport.as_str(), config.port), ("http", Some(3000)));
    let config = mcp::start(false);
    assert_eq!((config.transport.as_str(), config.port), ("stdio", None));
    let some = |s: &str| Some(s.to_string());
    let place = mapping::add(some("https://w"), some("f.md"), false).unwrap();
    assert_eq!((place.doc_type.as_str(), place.location.as_str()), ("confluence", "https://w"));
    let place = mapping::add(None, some("f.md"), true).unwrap();
    assert_eq!((place.doc_type.as_str(), place.location.as_str()), ("markdown", "f.md"));
    assert_eq!(
        mapping::add(None, some("f.md"), false).unwrap_err().message(),
        "Configuration error: File does not exist: f.md"
    );
    assert_eq!(
        mapping::add(None, None, true).unwrap_err().message(),
        "Configuration error: Either --url or --file must be provided"
    );
    let mut mappings = Mappings::new("t".to_string());
    mappings.add_mapping("api".to_string(), "markdown".to_string(), "a.md".to_string(), "t".to_string());
    mappings.add_mapping("api".to_string(), "confluence".to_string(), "https://a".to_string(), "t".to_string());
    assert_eq!(
        mapping::list(&mappings.services[0]),
        "Service: api\n  Documentation:\n    - a.md (markdown)\n    - https://a (confluence)\n"
    );
}

#[test]
fn markdown_files_are_resolved_and_updated() {
    let provider = MarkdownProvider::new(MarkdownConfig {
        base_path: "/docs".to_string(),
        extension: "md".to_string(),
        auto_create_dirs: true,
    });
    assert_eq!(provider.name(), "markdown");
    assert_eq!(provider.try_resolve_path("test"), Some("/docs/test.md".to_string()));
    assert_eq!(provider.try_resolve_path("a/b.md"), Some("/docs/a/b.md".to_string()));
    assert_eq!(provider.try_resolve_path("a/b.txt"), Some("/docs/a/b.md".to_string()));
    assert_eq!(provider.try_resolve_path("/abs/file"), Some("/abs/file.md".to_string()));
    let odd = MarkdownProvider::new(MarkdownConfig {
        base_path: "/docs".to_string(),
        extension: "m/d".to_string(),
        auto_create_dirs: true,
    });
    assert_eq!(odd.try_resolve_path("test"), None);

    let created = MarkdownProvider::create_document("test", "/docs/test.md".to_string());
    assert!(matches!(created.status, PublishStatus::Created));
    assert_eq!(created.version, 1);
    let same = MarkdownProvider::update_document("test", "u".to_string(), "a", "a");
    assert!(matches!(same.status, PublishStatus::NoChanges));
    assert_eq!(same.version, 1);
    let changed = MarkdownProvider::update_document("test", "u".to_string(), "a", "b");
    assert!(matches!(changed.status, PublishStatus::Updated));
    assert_eq!(changed.version, 2);

    assert_eq!(
        MarkdownProvider::update_section("# Updated Content\n\nThis has been updated.", "Section", "Section content here."),
        "# Updated Content\n\nThis has been updated.\n\n## Section\nSection content here."
    );
    assert_eq!(
        MarkdownProvider::update_section("top\n## Section\nold\n## Next\nkept?", "Section", "new"),
        "top\n\n## Section\nnew"
    );
    let document = Document {
        id: "test".to_string(),
        title: "Test Document".to_string(),
        content: "# Test Content\n\nThis is a test.".to_string(),
        url: None,
        parent_id: None,
        metadata: DocumentMetadata::default(),
    };
    assert!(MarkdownProvider::matches(&document, "Test Doc"));
    assert!(MarkdownProvider::matches(&document, "is a test"));
    assert!(!MarkdownProvider::matches(&document, "absent"));
}

#[test]
fn the_extractor_says_what_to_read() {
    let commit = DiffExtractor::new("commit".to_string(), "HEAD".to_string());
    assert!(matches!(commit.extract(), Ok(DiffRequest::Commit(r)) if r == "HEAD"));
    assert!(matches!(commit.extract_range("a..b"), Ok(DiffRequest::Range(r)) if r == "a..b"));
    let staged = DiffExtractor::new("staged".to_string(), "staged".to_string());
    assert!(matches!(staged.extract(), Ok(DiffRequest::Staged)));
    match staged.extract_range("a..b") {
        Err(e) => assert_eq!(e.message(), "Invalid input: Range extraction not supported for source type: staged"),
        Ok(_) => panic!("a range of staged changes"),
    }
    let range = DiffExtractor::new("range".to_string(), "x".to_string());
    assert!(range.extract_range("a..b").is_ok());
    match range.extract() {
        Err(KtmeError::InvalidInput(detail)) => assert_eq!(detail, "Unsupported source type: range"),
        _ => panic!("a range is no single set of changes"),
    }
}

#[test]
fn the_reader_knows_its_rules() {
    let range = GitReader::read_commit_range("main..feature").unwrap();
    assert_eq!((range.start.as_str(), range.end.as_str()), ("main", "feature"));
    let range = GitReader::read_commit_range("a...b").unwrap();
    assert_eq!((range.start.as_str(), range.end.as_str()), ("a", ".b"));
    let range = GitReader::read_commit_range("..").unwrap();
    assert_eq!((range.start.as_str(), range.end.as_str()), ("", ""));
    for bad in ["main", "a..b..c", "", "a.b", "...."] {
        match GitReader::read_commit_range(bad) {
            Err(KtmeError::InvalidInput(detail)) => assert_eq!(detail, "Invalid range format. Use: start..end"),
            _ => panic!("{:?} is taken as a range", bad),
        }
    }
    assert_eq!(
        GitReader::resolve_reference("v1"),
        vec!["refs/heads/v1".to_string(), "refs/tags/v1".to_string(), "refs/remotes/origin/v1".to_string()]
    );
    assert_eq!(GitReader::reference_not_found("v1").message(), "Git operation failed: Reference 'v1' not found");
    assert_eq!(GitReader::status_label(DeltaKind::Added), "added");
    assert_eq!(GitReader::status_label(DeltaKind::Deleted), "deleted");
    assert_eq!(GitReader::status_label(DeltaKind::Modified), "modified");
    assert_eq!(GitReader::status_label(DeltaKind::Renamed), "renamed");
    assert_eq!(GitReader::status_label(DeltaKind::Copied), "copied");
    assert_eq!(GitReader::status_label(DeltaKind::Untracked), "untracked");
    assert_eq!(GitReader::status_label(DeltaKind::Other), "unknown");
}

#[test]
fn the_lines_of_a_diff_are_counted() {
    let line = |origin: char, content: &str| DiffLine { origin, content: content.to_string() };
    let lines = vec![
        line('F', "diff --git a b\n"),
        line('H', "@@ -1 +1 @@\n"),
        line(' ', "same  \n"),
        line('-', "old\n"),
        line('+', "new\r\n"),
        line('>', "eof\n"),
    ];
    let (additions, deletions, text) = GitReader::get_file_stats(&lines);
    assert_eq!(additions, 2);
    assert_eq!(deletions, 1);
    assert_eq!(text, "diff --git a b\n@@ -1 +1 @@\n same\n-old\n+new\n eof\n");
    assert_eq!(GitReader::get_file_stats(&vec![]), (0, 0, String::new()));
}

#[test]
fn changes_are_summed() {
    let files = vec![change("a", "added", 5, 0, ""), change("b", "modified", 7, 2, "")];
    assert_eq!(
        GitReader::summarize(&files),
        Some(DiffSummary { total_files: 2, total_additions: 12, total_deletions: 2 })
    );
    assert_eq!(GitReader::summarize(&vec![]), Some(DiffSummary::default()));
    let huge = vec![change("a", "added", u32::MAX, 0, ""), change("b", "added", 1, 0, "")];
    assert_eq!(GitReader::summarize(&huge), None);
    let diff = GitReader::extract_tree_diff(
        "staged",
        "staged",
        files,
        DiffSummary { total_files: 2, total_additions: 12, total_deletions: 2 },
        None,
        "now".to_string(),
    );
    assert_eq!(diff.author, "Unknown");
    assert_eq!(diff.message, "No message");
    assert_eq!(diff.timestamp, "now");
    assert_eq!(diff.files.len(), 2);
    let info = DiffExtractor::get_repository_info("/r".to_string(), "main".to_string(), vec![]);
    assert_eq!(info.branch, "main");
}

#[test]
fn documentation_is_written_from_changes() {
    let diff = diff();
    assert_eq!(
        McpTools::generate_documentation("svc", Some(&diff), Some("markdown")).unwrap(),
        "# Documentation for svc\n\n## Changes\n\n**Source:** commit\n**Author:** Ann\n**Timestamp:** 2024-01-01T00:00:00+00:00\n\n### Summary\n- 2 files changed\n- 13 additions\n- 3 deletions\n\n### Files Modified\n- **src/a.rs**: modified (src/a.rs, +12/-3)\n- **b.md**: added (b.md, +1/-0)\n\n### Commit Message\n  Fix the parser\n\n"
    );
    match McpTools::generate_documentation("svc", None, None) {
        Err(e) => assert_eq!(e.message(), "Invalid input: Invalid changes format"),
        Ok(_) => panic!("documentation of nothing"),
    }
}

#[test]
fn mappings_are_added_found_and_removed() {
    let mut mappings = Mappings::new("t0".to_string());
    assert_eq!(mappings.version, "1.0");
    mappings.add_mapping("api".to_string(), "file".to_string(), "docs/api.md".to_string(), "t1".to_string());
    mappings.add_mapping("web".to_string(), "url".to_string(), "https://w".to_string(), "t2".to_string());
    mappings.add_mapping("api".to_string(), "url".to_string(), "https://a".to_string(), "t3".to_string());
    assert_eq!(mappings.last_updated, "t3");
    assert_eq!(mappings.list_services(), vec!["api".to_string(), "web".to_string()]);
    let api = mappings.get_mapping("api").unwrap();
    assert_eq!(api.docs.len(), 2);
    assert_eq!(api.docs[1].doc_type, "url");
    assert_eq!(api.docs[1].location, "https://a");
    assert!(api.path.is_none());
    match mappings.get_mapping("none") {
        Err(e) => assert_eq!(e.message(), "Service mapping not found: none"),
        Ok(_) => panic!("a mapping of nothing"),
    }
    mappings.remove_mapping("api", "t4".to_string());
    assert_eq!(mappings.list_services(), vec!["web".to_string()]);
    assert_eq!(mappings.last_updated, "t4");
    mappings.remove_mapping("none", "t5".to_string());
    assert_eq!(mappings.services.len(), 1);
    assert_eq!(McpTools::list_services(&mappings.list_services()), "Services: web");
}

#[test]
fn the_storage_manager_knows_its_database() {
    let ready = StorageManager::new("m.toml".to_string(), true, true);
    assert!(ready.initialize_database().is_ok());
    assert!(ready.get_database_stats().is_ok());
    assert_eq!(ready.mappings_file_path(), "m.toml");
    let closed = StorageManager::new("m.toml".to_string(), true, false);
    assert_eq!(closed.initialize_database().unwrap_err().message(), "Storage operation failed: SQLite not initialized");
    assert_eq!(closed.get_database_stats().unwrap_err().message(), "Storage operation failed: Database not initialized");
    let off = StorageManager::new("m.toml".to_string(), false, false);
    assert_eq!(
        off.initialize_database().unwrap_err().message(),
        "Storage operation failed: SQLite not enabled in configuration"
    );
    let stats = DatabaseStats::new("db".to_string(), 3, 0, -1, 7, i64::MAX);
    assert_eq!((stats.service_count, stats.history_count, stats.feature_count), (3, 0, i64::MAX as u64));
}

#[test]
fn services_are_discovered_by_their_readme() {
    let entry = |is_file: bool, name: &str, path: &str, parent: Option<(&str, &str)>| WalkEntry {
        is_file,
        file_name: name.to_string(),
        path: path.to_string(),
        parent_path: parent.map(|p| p.0.to_string()),
        parent_name: parent.map(|p| p.1.to_string()),
    };
    let discovery = ServiceDiscovery::new("/srv".to_string());
    assert_eq!(discovery.base_path(), "/srv");
    assert_eq!(ServiceDiscovery::max_depth(), 2);
    let services = discovery.discover(&vec![
        entry(false, "api", "/srv/api", Some(("/srv", "srv"))),
        entry(true, "README.md", "/srv/api/README.md", Some(("/srv/api", "api"))),
        entry(true, "main.rs", "/srv/api/main.rs", Some(("/srv/api", "api"))),
        entry(false, "README.md", "/srv/web/README.md", Some(("/srv/web", "web"))),
        entry(true, "README.md", "/README.md", Some(("/", "x")).filter(|_| false)),
        entry(true, "README.md", "/srv/web/README.md", Some(("/srv/web", "web"))),
    ]);
    assert_eq!(services.len(), 2);
    assert_eq!(services[0].name, "api");
    assert_eq!(services[0].path, "/srv/api");
    assert_eq!(services[0].docs, vec!["/srv/api/README.md".to_string()]);
    assert_eq!(services[1].name, "web");
}

#[test]
fn kinds_have_their_words() {
    assert_eq!(GenerationAction::UpdateSection.as_str(), "update_section");
    assert_eq!(GenerationAction::Create.as_str(), "create");
    assert_eq!(GenerationStatus::Pending.as_str(), "pending");
    assert_eq!(SourceType::Pr.as_str(), "pr");
    assert_eq!(FeatureType::BusinessLogic.as_str(), "business_logic");
    assert_eq!(RelationType::DependsOn.as_str(), "depends_on");
    assert_eq!(SearchContentType::ApiReference.as_str(), "api_reference");
    assert_eq!(ktme::storage::models::KnowledgeNodeType::Concept.as_str(), "concept");
    assert_eq!(ktme::storage::models::QueryIntent::GetExamples.as_str(), "get_examples");
}
