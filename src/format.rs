//! The human-readable summary of a list of search results.
use vstd::prelude::*;

verus! {

/// What the summary shows of one result.
#[derive(Debug, Clone, PartialEq, Eq)]
pub struct ResultHeading {
    pub title: Option<String>,
    pub url: String,
}

/// The title line of a result, with a stand-in where it has none.
pub open spec fn title_text(title: Option<String>) -> Seq<char> {
    match title {
        Some(t) => t@,
        None => "(untitled)"@,
    }
}

/// The block of the summary that shows one result: its title on one line,
/// its URL indented on the next.
pub open spec fn entry_text(h: ResultHeading) -> Seq<char> {
    "- "@ + title_text(h.title) + "\n  "@ + h.url@ + "\n"@
}

/// The summary of a list of results: one block per result, in order.
pub open spec fn formatted(hs: Seq<ResultHeading>) -> Seq<char>
    decreases hs.len(),
{
    if hs.len() == 0 {
        Seq::empty()
    } else {
        formatted(hs.drop_last()) + entry_text(hs.last())
    }
}

/// Builds the summary of a list of results.
pub fn format_results(results: &Vec<ResultHeading>) -> (r: String)
    ensures
        r@ == formatted(results@),
{
    let mut out = String::new();
    let mut i: usize = 0;
    while i < results.len()
        invariant
            i <= results@.len(),
            out@ == formatted(results@.subrange(0, i as int)),
        decreases results@.len() - i,
    {
        let h = &results[i];
        let ghost before = out@;
        out.append("- ");
        match &h.title {
            Some(t) => out.append(t.as_str()),
            None => out.append("(untitled)"),
        }
        out.append("\n  ");
        out.append(h.url.as_str());
        out.append("\n");
        proof {
            let prefix = results@.subrange(0, i + 1);
            assert(prefix.drop_last() =~= results@.subrange(0, i as int));
            assert(prefix.last() == *h);
            assert(out@ =~= before + entry_text(*h));
        }
        i += 1;
    }
    proof {
        assert(results@.subrange(0, results@.len() as int) =~= results@);
    }
    out
}

/// The summary of two lists one after the other is the summary of the first
/// followed by that of the second: each result keeps its block and its place.
pub proof fn lemma_formatted_append(a: Seq<ResultHeading>, b: Seq<ResultHeading>)
    ensures
        formatted(a + b) == formatted(a) + formatted(b),
    decreases b.len(),
{
    if b.len() == 0 {
        assert(a + b =~= a);
        assert(formatted(a) + formatted(b) =~= formatted(a));
    } else {
        lemma_formatted_append(a, b.drop_last());
        assert((a + b).drop_last() =~= a + b.drop_last());
        assert((a + b).last() == b.last());
        assert(formatted(a + b) =~= formatted(a) + formatted(b));
    }
}

/// An empty list of results has an empty summary; a single result's summary
/// is its block.
pub proof fn lemma_formatted_small(h: ResultHeading)
    ensures
        formatted(Seq::<ResultHeading>::empty()) == Seq::<char>::empty(),
        formatted(seq![h]) == entry_text(h),
{
    let none = Seq::<ResultHeading>::empty();
    assert(formatted(none) == Seq::<char>::empty());
    assert(seq![h].drop_last() =~= none);
    assert(seq![h].last() == h);
    assert(Seq::<char>::empty() + entry_text(h) =~= entry_text(h));
}

} // verus!
