use exa_cli::format::{format_results, ResultHeading};
use exa_cli::input::Request;
use exa_cli::output::accept_api_key;
use exa_cli::{Action, Failure, Input, InputError, Output};

fn heading(title: Option<&str>, url: &str) -> ResultHeading {
    ResultHeading { title: title.map(|t| t.to_string()), url: url.to_string() }
}

fn search_input(query: &str) -> Input {
    Input {
        action: Some("search".to_string()),
        query: Some(query.to_string()),
        url: None,
        urls: None,
        num_results: None,
        search_type: None,
        category: None,
        include_domains: None,
        exclude_domains: None,
        start_crawl_date: None,
        end_crawl_date: None,
        start_published_date: None,
        end_published_date: None,
        include_text: None,
        exclude_text: None,
        use_autoprompt: None,
        moderation: None,
        user_location: None,
        additional_queries: None,
        exclude_source_domain: None,
        max_chars: None,
        contents: None,
    }
}

#[test]
fn empty_results_give_empty_summary() {
    assert_eq!(format_results(&vec![]), "");
}

#[test]
fn summary_exact_text() {
    let hs = vec![heading(Some("One"), "https://a.org"), heading(None, "https://b.org")];
    assert_eq!(
        format_results(&hs),
        "- One\n  https://a.org\n- (untitled)\n  https://b.org\n"
    );
}

#[test]
fn summary_keeps_order() {
    let hs = vec![heading(Some("First"), "u1"), heading(Some("Second"), "u2")];
    let s = format_results(&hs);
    let a = s.find("First").unwrap();
    let b = s.find("Second").unwrap();
    assert!(a < b);
    assert_eq!(s.lines().count(), 4);
}

#[test]
fn search_scenario_end_to_end() {
    let req = search_input("rust ownership").into_request().unwrap();
    let action = req.action();
    match &req {
        Request::Search(o) => assert_eq!(o.query, "rust ownership"),
        other => panic!("unexpected request {other:?}"),
    }
    let results = vec!["r1".to_string(), "r2".to_string()];
    let hs = vec![
        heading(Some("The Rust Book"), "https://doc.rust-lang.org/book"),
        heading(Some("Ownership explained"), "https://example.com/own"),
    ];
    let out: Output<String, ()> = Output::success(action, results, &hs, ());
    assert!(out.is_ok());
    match out {
        Output::SearchOk { action, results, formatted, .. } => {
            assert_eq!(action, "search");
            assert_eq!(results, vec!["r1".to_string(), "r2".to_string()]);
            assert!(!formatted.is_empty());
            assert!(formatted.contains("The Rust Book"));
            assert!(formatted.contains("Ownership explained"));
        }
        other => panic!("unexpected output {other:?}"),
    }
}

#[test]
fn find_similar_success_is_search_shaped() {
    let out: Output<u8, ()> =
        Output::success(Action::FindSimilar, vec![1], &vec![heading(Some("T"), "u")], ());
    match out {
        Output::SearchOk { action, formatted, .. } => {
            assert_eq!(action, "find_similar");
            assert_eq!(formatted, "- T\n  u\n");
        }
        other => panic!("unexpected output {other:?}"),
    }
}

#[test]
fn get_contents_success_has_no_summary() {
    let out: Output<u8, u32> = Output::success(Action::GetContents, vec![7, 8], &vec![], 5);
    assert_eq!(
        out,
        Output::ContentsOk { action: "get_contents".to_string(), results: vec![7, 8], meta: 5 }
    );
}

#[test]
fn query_missing_scenario_output() {
    let mut input = search_input("x");
    input.action = None;
    input.query = None;
    input.urls = Some(vec![]);
    let err = input.into_request().unwrap_err();
    let out: Output<u8, ()> = Output::failed(&Failure::Input(err));
    assert!(!out.is_ok());
    assert_eq!(
        out,
        Output::Error { error: "'query' is required for action 'search'".to_string() }
    );
}

#[test]
fn failure_messages() {
    assert_eq!(Failure::MissingApiKey.message(), "EXA_API_KEY environment variable not set");
    assert_eq!(
        Failure::InvalidJson("expected value".to_string()).message(),
        "Invalid JSON input: expected value"
    );
    assert_eq!(
        Failure::UnreadableInput("closed".to_string()).message(),
        "Failed to read stdin: closed"
    );
    assert_eq!(
        Failure::ClientSetup("tls".to_string()).message(),
        "Failed to create HTTP client: tls"
    );
    assert_eq!(
        Failure::Upstream(Action::Search, "timeout".to_string()).message(),
        "Search failed: timeout"
    );
    assert_eq!(
        Failure::Upstream(Action::FindSimilar, "e".to_string()).message(),
        "FindSimilar failed: e"
    );
    assert_eq!(
        Failure::Upstream(Action::GetContents, "e".to_string()).message(),
        "GetContents failed: e"
    );
    assert_eq!(
        Failure::Input(InputError::MissingUrl).message(),
        "'url' is required for action 'find_similar'"
    );
}

#[test]
fn api_key_must_be_present_and_non_empty() {
    assert_eq!(accept_api_key(None), Err(Failure::MissingApiKey));
    assert_eq!(accept_api_key(Some(String::new())), Err(Failure::MissingApiKey));
    assert_eq!(accept_api_key(Some("k".to_string())), Ok("k".to_string()));
}
