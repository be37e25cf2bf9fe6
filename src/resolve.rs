//! The two contents-resolution policies: one for searches (search and
//! find-similar), one for explicit content fetches.
use vstd::prelude::*;
use crate::options::{
    no_contents_options, text_limited_to, ContentsOptions, TextOptions,
};
use crate::params::{text_request, ContentsInput, TextInput};

verus! {

/// The character limit asked for when a search names neither nested
/// contents nor a legacy limit.
pub const DEFAULT_MAX_CHARACTERS: u32 = 10000;

/// Fills in a legacy character limit on text options that are present but
/// carry no limit of their own; anything else is left as it is.
pub open spec fn with_legacy_limit(o: ContentsOptions, max_chars: Option<u32>) -> ContentsOptions {
    match (o.text, max_chars) {
        (Some(t), Some(mc)) => if t.max_characters is None {
            ContentsOptions {
                text: Some(TextOptions { max_characters: Some(mc), include_html_tags: t.include_html_tags }),
                ..o
            }
        } else {
            o
        },
        _ => o,
    }
}

/// Contents resolution for searches. Nested contents are converted, and a
/// legacy limit only fills a missing limit on present text options. Without
/// nested contents, text is always asked for, limited by the legacy limit
/// or else by the default one.
pub open spec fn search_contents(ci: Option<ContentsInput>, max_chars: Option<u32>) -> ContentsOptions {
    match ci {
        Some(c) => with_legacy_limit(c.spec_options(), max_chars),
        None => ContentsOptions {
            text: Some(text_limited_to(
                match max_chars {
                    Some(mc) => mc,
                    None => DEFAULT_MAX_CHARACTERS,
                },
            )),
            ..no_contents_options()
        },
    }
}

/// Contents resolution for content fetches. Nested contents are converted
/// (all absent when there are none); a legacy limit only creates text options
/// where they are wholly absent.
pub open spec fn fetch_contents(ci: Option<ContentsInput>, max_chars: Option<u32>) -> ContentsOptions {
    let o = match ci {
        Some(c) => c.spec_options(),
        None => no_contents_options(),
    };
    match (o.text, max_chars) {
        (None, Some(mc)) => ContentsOptions { text: Some(text_limited_to(mc)), ..o },
        _ => o,
    }
}

/// Resolves the contents options of a search or find-similar request from the
/// nested contents specification and the legacy `max_chars` field.
pub fn resolve_contents(contents_input: Option<ContentsInput>, max_chars: Option<u32>) -> (r: ContentsOptions)
    ensures
        r == search_contents(contents_input, max_chars),
{
    match contents_input {
        Some(ci) => {
            let mut opts = ci.into_options();
            if let Some(mc) = max_chars {
                if let Some(text) = opts.text {
                    if text.max_characters.is_none() {
                        opts.text = Some(TextOptions {
                            max_characters: Some(mc),
                            include_html_tags: text.include_html_tags,
                        });
                    } else {
                        opts.text = Some(text);
                    }
                }
            }
            opts
        },
        None => {
            let max_characters = match max_chars {
                Some(mc) => mc,
                None => DEFAULT_MAX_CHARACTERS,
            };
            let mut opts = ContentsOptions::absent();
            opts.text = Some(TextOptions::limited_to(max_characters));
            opts
        },
    }
}

/// Resolves the contents options of a get-contents request from the nested
/// contents specification and the legacy `max_chars` field.
pub fn resolve_fetch_contents(contents_input: Option<ContentsInput>, max_chars: Option<u32>) -> (r: ContentsOptions)
    ensures
        r == fetch_contents(contents_input, max_chars),
{
    let mut opts = match contents_input {
        Some(ci) => ci.into_options(),
        None => ContentsOptions::absent(),
    };
    if opts.text.is_none() {
        if let Some(mc) = max_chars {
            opts.text = Some(TextOptions::limited_to(mc));
        }
    }
    opts
}

/// For searches, a character limit already set in the nested text options
/// is kept, whatever the legacy limit.
pub proof fn lemma_nested_limit_wins(ci: ContentsInput, t: TextOptions, n: u32, max_chars: Option<u32>)
    requires
        ci.text == Some(TextInput::Options(t)),
        t.max_characters == Some(n),
    ensures
        search_contents(Some(ci), max_chars).text == Some(t),
        search_contents(Some(ci), max_chars).text.unwrap().max_characters == Some(n),
{
}

/// For searches, a legacy limit fills in the limit of nested text options
/// that are present without one, and keeps their other settings.
pub proof fn lemma_legacy_limit_fills_gap(ci: ContentsInput, mc: u32)
    requires
        text_request(ci.text) matches Some(t) && t.max_characters is None,
    ensures
        search_contents(Some(ci), Some(mc)).text == Some(TextOptions {
            max_characters: Some(mc),
            include_html_tags: text_request(ci.text).unwrap().include_html_tags,
        }),
{
}

/// For content fetches, a legacy limit never overrides text options that
/// the nested contents provide, with or without a limit.
pub proof fn lemma_fetch_keeps_nested_text(ci: ContentsInput, max_chars: Option<u32>)
    requires
        text_request(ci.text) is Some,
    ensures
        fetch_contents(Some(ci), max_chars).text == text_request(ci.text),
{
}

/// Searches always ask for text when no nested contents are given.
pub proof fn lemma_search_always_requests_text(max_chars: Option<u32>)
    ensures
        search_contents(None, max_chars).text is Some,
        search_contents(None, max_chars).text.unwrap().max_characters is Some,
{
}

} // verus!
