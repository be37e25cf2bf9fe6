use exa_cli::options::{ExtrasOptions, HighlightsOptions, SummaryOptions, TextOptions};
use exa_cli::params::{ContentsInput, HighlightsInput, SummaryInput, TextInput};
use exa_cli::{resolve_contents, resolve_fetch_contents};

fn nested(text: Option<TextInput>) -> ContentsInput {
    ContentsInput {
        text,
        highlights: None,
        summary: None,
        livecrawl: None,
        livecrawl_timeout: None,
        max_age_hours: None,
        filter_empty_results: None,
        subpages: None,
        subpage_target: None,
        extras: None,
    }
}

fn limited(n: u32) -> TextOptions {
    TextOptions { max_characters: Some(n), include_html_tags: None }
}

#[test]
fn nested_limit_beats_legacy_limit() {
    let ci = nested(Some(TextInput::Options(TextOptions {
        max_characters: Some(1234),
        include_html_tags: Some(true),
    })));
    let r = resolve_contents(Some(ci), Some(99));
    assert_eq!(
        r.text,
        Some(TextOptions { max_characters: Some(1234), include_html_tags: Some(true) })
    );
}

#[test]
fn legacy_limit_fills_missing_nested_limit() {
    let ci = nested(Some(TextInput::Options(TextOptions {
        max_characters: None,
        include_html_tags: Some(false),
    })));
    let r = resolve_contents(Some(ci), Some(99));
    assert_eq!(
        r.text,
        Some(TextOptions { max_characters: Some(99), include_html_tags: Some(false) })
    );
}

#[test]
fn legacy_limit_does_not_create_text_for_search() {
    let mut ci = nested(None);
    ci.summary = Some(SummaryInput::Enabled(true));
    let r = resolve_contents(Some(ci), Some(99));
    assert_eq!(r.text, None);
    assert_eq!(r.summary, Some(SummaryOptions { query: None }));
}

#[test]
fn search_default_text_limit() {
    let r = resolve_contents(None, None);
    assert_eq!(r.text, Some(limited(10000)));
    assert_eq!(r.highlights, None);
    assert_eq!(r.summary, None);
}

#[test]
fn search_default_uses_legacy_limit() {
    let r = resolve_contents(None, Some(42));
    assert_eq!(r.text, Some(limited(42)));
}

#[test]
fn fetch_without_anything_has_no_text() {
    let r = resolve_fetch_contents(None, None);
    assert_eq!(r.text, None);
    assert_eq!(r.highlights, None);
    assert_eq!(r.livecrawl, None);
}

#[test]
fn fetch_legacy_limit_only() {
    let r = resolve_fetch_contents(None, Some(500));
    assert_eq!(r.text, Some(limited(500)));
    assert_eq!(r.summary, None);
    assert_eq!(r.highlights, None);
}

#[test]
fn fetch_does_not_fill_nested_text_limit() {
    let ci = nested(Some(TextInput::Enabled(true)));
    let r = resolve_fetch_contents(Some(ci), Some(500));
    assert_eq!(r.text, Some(TextOptions { max_characters: None, include_html_tags: None }));
}

#[test]
fn switched_off_text_stays_absent() {
    let ci = nested(Some(TextInput::Enabled(false)));
    let r = resolve_contents(Some(ci), Some(500));
    assert_eq!(r.text, None);
    let ci = nested(Some(TextInput::Enabled(false)));
    let r = resolve_fetch_contents(Some(ci), Some(500));
    assert_eq!(r.text, Some(limited(500)));
}

#[test]
fn conversion_keeps_every_field() {
    let ci = ContentsInput {
        text: None,
        highlights: Some(HighlightsInput::Options(HighlightsOptions {
            num_sentences: Some(2),
            highlights_per_url: Some(1),
            query: Some("q".to_string()),
        })),
        summary: Some(SummaryInput::Enabled(false)),
        livecrawl: Some("fallback".to_string()),
        livecrawl_timeout: Some(1000),
        max_age_hours: Some(-1),
        filter_empty_results: Some(true),
        subpages: Some(3),
        subpage_target: Some(vec!["about".to_string()]),
        extras: Some(ExtrasOptions { links: Some(4), image_links: None }),
    };
    let o = ci.into_options();
    assert_eq!(o.text, None);
    assert_eq!(o.highlights.unwrap().num_sentences, Some(2));
    assert_eq!(o.summary, None);
    assert_eq!(o.livecrawl.as_deref(), Some("fallback"));
    assert_eq!(o.livecrawl_timeout, Some(1000));
    assert_eq!(o.max_age_hours, Some(-1));
    assert_eq!(o.filter_empty_results, Some(true));
    assert_eq!(o.subpages, Some(3));
    assert_eq!(o.subpage_target, Some(vec!["about".to_string()]));
    assert_eq!(o.extras, Some(ExtrasOptions { links: Some(4), image_links: None }));
}

#[test]
fn switched_on_highlights_have_nothing_set() {
    let mut ci = nested(None);
    ci.highlights = Some(HighlightsInput::Enabled(true));
    let o = ci.into_options();
    assert_eq!(
        o.highlights,
        Some(HighlightsOptions { num_sentences: None, highlights_per_url: None, query: None })
    );
}
