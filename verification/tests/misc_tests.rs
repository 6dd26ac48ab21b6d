use mythos_harness::cli::{apply_run_options, project_config, project_name, run_failed, StrategyChoice};
use mythos_harness::memory::{
    check_entry, check_namespace_capacity, entry_expiry, is_expired, tag_like_pattern,
    tag_search_conditions,
    tag_search_query,
};
use mythos_harness::registry::builtin_plugin_infos;
use mythos_harness::text::{
    collapse_double_star_of, decimal_of, first_word_of, join_strs, str_contains, str_eq,
    str_eq_ignore_ascii_case, trim_of,
};
use mythos_harness::web_search::{
    collect_results, effective_max_results, parse_duckduckgo_html, provider_name,
    required_credential, result_fields, results_from_fragments, search_response, DdgFragment,
    SearchError,
};
use mythos_harness::{
    BuildError, HarnessBuilder, HarnessConfig, LoopStrategy, MemoryConfig, MemoryError, Phase,
    RawSearchItem, RunStatus, SearchProvider, Timestamp, WebSearchConfig,
};

#[test]
fn harness_config_default_values() {
    let c = HarnessConfig::default();
    assert_eq!(c.name, "rHarness");
    assert_eq!(c.version, "1.0.0");
    assert_eq!(c.tagline, "Finish First.");
    assert_eq!(c.loop_strategy, LoopStrategy::FinishFirst);
    assert_eq!(c.engine, "harness-core");
    assert_eq!(c.license, "MIT");
    assert_eq!(c.phases, Phase::all().to_vec());
    assert_eq!(c.plugins, vec!["web-search", "filesystem", "shell", "memory", "code-executor"]);
    assert_eq!(c.max_iterations, 10);
    assert_eq!(c.phase_timeout_secs, 300);
    assert_eq!(c.global_timeout_secs, 3600);
}

#[test]
fn builder_sets_config_and_requires_agent() {
    let b: HarnessBuilder<&str, u8> = HarnessBuilder::new();
    let e = b.build().unwrap_err();
    assert_eq!(e, BuildError::AgentRequired);
    assert_eq!(e.message(), "Agent is required");
    let (config, agent, plugins) = HarnessBuilder::new()
        .name("demo".to_string())
        .version("2.0".to_string())
        .loop_strategy(LoopStrategy::SinglePass)
        .phases(vec![Phase::Execute])
        .max_iterations(3)
        .phase_timeout(7)
        .global_timeout(70)
        .agent("agent")
        .plugin(1u8)
        .plugin(2u8)
        .build()
        .unwrap();
    assert_eq!(config.name, "demo");
    assert_eq!(config.version, "2.0");
    assert_eq!(config.loop_strategy, LoopStrategy::SinglePass);
    assert_eq!(config.phases, vec![Phase::Execute]);
    assert_eq!(config.max_iterations, 3);
    assert_eq!(config.phase_timeout_secs, 7);
    assert_eq!(config.global_timeout_secs, 70);
    assert_eq!(agent, "agent");
    assert_eq!(plugins, vec![1, 2]);
    let b: HarnessBuilder<u8, u8> = HarnessBuilder::default().config(HarnessConfig::default());
    assert!(b.build().is_err());
}

#[test]
fn cli_run_options_override_config() {
    let c = apply_run_options(HarnessConfig::default(), StrategyChoice::Fixed, 4, 9, 99);
    assert_eq!(c.loop_strategy, LoopStrategy::FixedIterations(4));
    assert_eq!(c.max_iterations, 4);
    assert_eq!(c.phase_timeout_secs, 9);
    assert_eq!(c.global_timeout_secs, 99);
    assert_eq!(c.name, "rHarness");
    let c = apply_run_options(HarnessConfig::default(), StrategyChoice::SinglePass, 1, 1, 1);
    assert_eq!(c.loop_strategy, LoopStrategy::SinglePass);
    assert!(run_failed(RunStatus::Failed));
    assert!(!run_failed(RunStatus::Completed));
    assert_eq!(project_name(Some("x".to_string()), Some("d".to_string())), "x");
    assert_eq!(project_name(None, Some("d".to_string())), "d");
    assert_eq!(project_name(None, None), "mythos-project");
    let pc = project_config("proj".to_string());
    assert_eq!(pc.name, "proj");
    assert_eq!(pc.max_iterations, 10);
}

#[test]
fn memory_default_and_checks() {
    let c = MemoryConfig::default();
    assert_eq!(c.db_path, ".mythos_memory.db");
    assert_eq!(c.max_entries_per_namespace, 10000);
    assert_eq!(c.max_value_size, 1024 * 1024);
    assert_eq!(c.vector_dimension, 1536);
    assert_eq!(check_entry(&c, "", 1), Err(MemoryError::EmptyKey));
    assert_eq!(check_entry(&c, "", 1).unwrap_err().message(), "Key cannot be empty");
    let e = check_entry(&c, "k", 1024 * 1024 + 1).unwrap_err();
    assert_eq!(e.message(), "Value too large: 1048577 bytes (max: 1048576)");
    assert!(check_entry(&c, "k", 1024 * 1024).is_ok());
    let e = check_namespace_capacity(&c, "ns", 10000).unwrap_err();
    assert_eq!(e.message(), "Namespace 'ns' has reached max entries");
    assert!(check_namespace_capacity(&c, "ns", 9999).is_ok());
}

#[test]
fn memory_namespace_never_overfills() {
    let mut c = MemoryConfig::default();
    c.max_entries_per_namespace = 3;
    let mut count: i64 = 1;
    for _ in 0..5 {
        if check_namespace_capacity(&c, "ns", count).is_ok() {
            count += 1;
        }
    }
    assert_eq!(count, 3);
}

#[test]
fn memory_tag_query() {
    assert_eq!(tag_search_conditions(0), "");
    assert_eq!(tag_search_conditions(1), "tags LIKE ?");
    assert_eq!(tag_search_conditions(3), "tags LIKE ? OR tags LIKE ? OR tags LIKE ?");
    assert_eq!(
        tag_search_query(2),
        "SELECT key, namespace, value, tags, metadata, vector, created_at, updated_at, expires_at, access_count, last_accessed \n             FROM memory_entries WHERE namespace = ? AND (tags LIKE ? OR tags LIKE ?) ORDER BY updated_at DESC LIMIT ?"
    );
    assert_eq!(tag_like_pattern("rust"), "%rust%");
}

#[test]
fn memory_expiry_is_strictly_before_now() {
    let t = |secs, nanos| Timestamp { secs, nanos };
    assert!(is_expired(t(10, 0), t(11, 0)));
    assert!(is_expired(t(10, 5), t(10, 6)));
    assert!(!is_expired(t(10, 6), t(10, 6)));
    assert!(!is_expired(t(12, 0), t(11, 999)));
}

#[test]
fn memory_default_time_to_live() {
    let t = |secs| Timestamp { secs, nanos: 7 };
    let mut c = MemoryConfig::default();
    // no default time to live: an entry without expiry never expires
    assert_eq!(entry_expiry(&c, None, t(100)), None);
    assert_eq!(entry_expiry(&c, Some(t(5)), t(100)), Some(t(5)));
    c.default_ttl_secs = 60;
    assert_eq!(entry_expiry(&c, None, t(100)), Some(t(160)));
    assert_eq!(entry_expiry(&c, Some(t(5)), t(100)), Some(t(5)));
    c.default_ttl_secs = u64::MAX;
    assert_eq!(entry_expiry(&c, None, t(100)), Some(t(i64::MAX)));
}

#[test]
fn web_search_credentials() {
    let mut c = WebSearchConfig::default();
    assert_eq!(required_credential(&c), Ok(None));
    c.provider = SearchProvider::Google;
    let e = required_credential(&c).unwrap_err();
    assert_eq!(e, SearchError::ApiKeyRequired(SearchProvider::Google));
    assert_eq!(e.message(), "Google API key required");
    c.provider = SearchProvider::Bing;
    assert_eq!(required_credential(&c).unwrap_err().message(), "Bing API key required");
    c.provider = SearchProvider::Brave;
    assert_eq!(required_credential(&c).unwrap_err().message(), "Brave API key required");
    c.api_key = Some("k".to_string());
    assert_eq!(required_credential(&c), Ok(Some("k".to_string())));
    c.provider = SearchProvider::Custom;
    assert_eq!(required_credential(&c).unwrap_err().message(), "Custom search endpoint required");
    c.custom_endpoint = Some("http://e".to_string());
    assert_eq!(required_credential(&c), Ok(Some("http://e".to_string())));
}

#[test]
fn web_search_results_from_fragments() {
    let frag = |text: &str, titles: &[&str], urls: &[&str]| DdgFragment {
        text: text.to_string(),
        titles: titles.iter().map(|t| t.to_string()).collect(),
        urls: urls.iter().map(|u| u.to_string()).collect(),
    };
    let frags = vec![
        frag(" one ", &[" T ", "second title"], &[" u "]),
        frag("  ", &["skipped"], &[]),
        frag("two", &[], &[]),
        frag("three", &[], &[]),
    ];
    let r = results_from_fragments(&frags, 2);
    assert_eq!(r.len(), 2);
    assert_eq!((r[0].title.as_str(), r[0].url.as_str(), r[0].snippet.as_str()), ("T", "u", "one"));
    assert_eq!((r[1].title.as_str(), r[1].url.as_str(), r[1].snippet.as_str()), ("Result 2", "", "two"));
    assert_eq!(r[1].rank, 1);
    assert_eq!(results_from_fragments(&frags, 10).len(), 3);
    assert_eq!(results_from_fragments(&frags, 0).len(), 0);
}

#[test]
fn web_search_defaults_and_limits() {
    let c = WebSearchConfig::default();
    assert_eq!(c.provider, SearchProvider::DuckDuckGo);
    assert_eq!(c.max_results, 10);
    assert_eq!(c.user_agent, "MythosHarness/1.0");
    assert_eq!(c.region, "us-en");
    assert_eq!(effective_max_results(None, 10), 10);
    assert_eq!(effective_max_results(Some(80), 10), 50);
    assert_eq!(effective_max_results(Some(3), 10), 3);
    assert_eq!(provider_name(SearchProvider::DuckDuckGo), "DuckDuckGo");
    assert_eq!(provider_name(SearchProvider::Brave), "Brave");
    let f = result_fields(SearchProvider::Google).unwrap();
    assert_eq!((f.title.as_str(), f.url.as_str(), f.snippet.as_str()), ("title", "link", "snippet"));
    let f = result_fields(SearchProvider::Brave).unwrap();
    assert_eq!(f.snippet, "description");
    assert!(result_fields(SearchProvider::DuckDuckGo).is_none());
}

#[test]
fn web_search_collects_ranked_results() {
    let items = vec![
        RawSearchItem { title: Some("A".to_string()), url: None, snippet: Some("a".to_string()) },
        RawSearchItem { title: None, url: Some("u".to_string()), snippet: None },
        RawSearchItem { title: Some("C".to_string()), url: None, snippet: None },
    ];
    let r = collect_results(&items, "google", 2);
    assert_eq!(r.len(), 2);
    assert_eq!(r[0].title, "A");
    assert_eq!(r[0].url, "");
    assert_eq!(r[1].url, "u");
    assert_eq!(r[1].title, "");
    assert_eq!(r[1].rank, 1);
    assert_eq!(r[1].source, "google");
    let resp = search_response("q", r, 5, SearchProvider::Google);
    assert_eq!(resp.provider, "Google");
    assert_eq!(resp.query, "q");
    assert!(resp.total_results.is_none());
}

#[test]
fn web_search_reads_the_first_title_and_link_of_a_block() {
    let html = r#"<div class="result__snippet">s<b class="result__title">A</b><b class="result__title">B</b><i class="result__url">x</i><i class="result__url">y</i></div>
        <div class="result__title">not a block</div>"#;
    let r = parse_duckduckgo_html(html, 5);
    assert_eq!(r.len(), 1);
    assert_eq!(r[0].title, "A");
    assert_eq!(r[0].url, "x");
    assert_eq!(r[0].snippet, "sABxy");
}

#[test]
fn web_search_parses_duckduckgo_html() {
    let html = r#"<html><body>
        <div class="result__snippet">  first snippet <span class="result__title"> My Title </span><span class="result__url"> example.com </span></div>
        <div class="result__snippet">   </div>
        <div class="result__snippet">second</div>
        <div class="result__snippet">third</div>
    </body></html>"#;
    let r = parse_duckduckgo_html(html, 2);
    assert_eq!(r.len(), 2);
    assert_eq!(r[0].title, "My Title");
    assert_eq!(r[0].url, "example.com");
    assert_eq!(r[0].snippet, "first snippet  My Title  example.com");
    assert_eq!(r[0].source, "duckduckgo");
    assert_eq!(r[1].title, "Result 2");
    assert_eq!(r[1].snippet, "second");
    assert_eq!(r[1].url, "");
    assert_eq!(r[1].rank, 1);
    assert_eq!(parse_duckduckgo_html(html, 10).len(), 3);
}

#[test]
fn builtin_plugins_as_listed_by_the_web_interface() {
    let infos = builtin_plugin_infos();
    let names: Vec<&str> = infos.iter().map(|i| i.name.as_str()).collect();
    assert_eq!(names, vec!["filesystem", "shell", "memory", "web-search", "code-executor"]);
    assert_eq!(infos[3].phases, vec![Phase::Interrogate, Phase::Contract, Phase::Execute]);
    assert!(infos[3].capabilities.web_search);
    assert_eq!(infos[4].description, "Code execution in multiple languages");
    assert!(infos.iter().all(|i| i.version == "1.0.0"));
}

#[test]
fn text_helpers() {
    assert!(str_eq("abc", "abc"));
    assert!(!str_eq("abc", "abd"));
    assert!(str_contains("hello world", "o w"));
    assert!(str_contains("x", ""));
    assert!(!str_contains("ab", "abc"));
    assert_eq!(first_word_of("  \u{3000}cmd arg"), "cmd");
    assert_eq!(first_word_of("   "), "");
    assert_eq!(trim_of(" \t a b \n"), "a b");
    assert!(str_eq_ignore_ascii_case("PyThOn", "python"));
    assert!(!str_eq_ignore_ascii_case("Ä", "ä"));
    assert_eq!(collapse_double_star_of("**/a/***"), "*/a/**");
    assert_eq!(join_strs(&["a", "b", "c"], ", "), "a, b, c");
    assert_eq!(decimal_of(0), "0");
    assert_eq!(decimal_of(1234567890), "1234567890");
    assert_eq!(decimal_of(u64::MAX), u64::MAX.to_string());
}
