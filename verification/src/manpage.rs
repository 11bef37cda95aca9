//! The outcome of asking the host for a manual page.

use vstd::prelude::*;
use vstd::utf8::{encode_utf8, valid_utf8};
use crate::filter::matching;
use crate::text::{
    chars_of, contains_chars, decode_lossy, join_lines, lines_of, lossy_text, split_lines,
    string_from_chars,
};

verus! {

/// What came of fetching a manual page.
#[derive(Clone, Debug, PartialEq, Eq)]
pub enum ManpageResult {
    /// The manual text.
    Available(String),
    /// The host has no manual entry to show.
    Empty,
    /// The fetch failed; the message says why.
    FetchError(String),
}

/// A `ManpageResult` with its strings as sequences of characters.
pub enum PageView {
    Available(Seq<char>),
    Empty,
    FetchError(Seq<char>),
}

impl View for ManpageResult {
    type V = PageView;

    open spec fn view(&self) -> PageView {
        match self {
            ManpageResult::Available(text) => PageView::Available(text@),
            ManpageResult::Empty => PageView::Empty,
            ManpageResult::FetchError(message) => PageView::FetchError(message@),
        }
    }
}

/// The message of a failed fetch that left no diagnostic text.
pub open spec fn generic_failure() -> Seq<char> {
    "the manual page could not be fetched"@
}

/// How the run of the manual-page facility is classified: a failed run is
/// an error that carries the diagnostic text, or the generic message where
/// there is none; a successful run without output means no manual entry;
/// any other output is the manual text.
pub open spec fn classify(success: bool, output: Seq<char>, diagnostics: Seq<char>) -> PageView {
    if !success {
        if diagnostics.len() == 0 {
            PageView::FetchError(generic_failure())
        } else {
            PageView::FetchError(diagnostics)
        }
    } else if output.len() == 0 {
        PageView::Empty
    } else {
        PageView::Available(output)
    }
}

/// Classifies one run of the manual-page facility by the texts that it
/// wrote.
pub fn classify_run(success: bool, output: String, diagnostics: String) -> (page: ManpageResult)
    ensures
        page@ == classify(success, output@, diagnostics@),
{
    if !success {
        if diagnostics.as_str().is_empty() {
            ManpageResult::FetchError("the manual page could not be fetched".to_owned())
        } else {
            ManpageResult::FetchError(diagnostics)
        }
    } else if output.as_str().is_empty() {
        ManpageResult::Empty
    } else {
        ManpageResult::Available(output)
    }
}

/// Classifies one run of the manual-page facility. `success` tells whether
/// it exited with status zero, `output` is what it wrote to standard output
/// and `diagnostics` what it wrote to standard error; both are decoded
/// permissively. A facility that could not be started counts as a failed
/// run with the reason as diagnostics.
pub fn get_manpage(success: bool, output: &[u8], diagnostics: &[u8]) -> (page: ManpageResult)
    ensures
        page@ == classify(success, lossy_text(output@), lossy_text(diagnostics@)),
        valid_utf8(output@) ==> encode_utf8(lossy_text(output@)) == output@,
        valid_utf8(diagnostics@) ==> encode_utf8(lossy_text(diagnostics@)) == diagnostics@,
{
    classify_run(success, decode_lossy(output), decode_lossy(diagnostics))
}

/// The manual text as shown under a search query: the text itself where
/// the query is empty, else its lines that contain the query, with a line
/// feed between each two.
pub open spec fn projected_text(text: Seq<char>, query: Seq<char>) -> Seq<char> {
    if query.len() == 0 {
        text
    } else {
        join_lines(matching(split_lines(text), query))
    }
}

/// Appends the characters of `line` to `out`.
fn append_chars(out: &mut Vec<char>, line: &Vec<char>)
    ensures
        final(out)@ == old(out)@ + line@,
{
    let mut k: usize = 0;
    while k < line.len()
        invariant
            k <= line.len(),
            out@ == old(out)@ + line@.take(k as int),
        decreases line.len() - k,
    {
        out.push(line[k]);
        k += 1;
        assert(out@ =~= old(out)@ + line@.take(k as int));
    }
    assert(line@.take(k as int) =~= line@);
}

/// Projects a manual text by a search query.
pub fn project_text(text: &str, query: &str) -> (shown: String)
    ensures
        shown@ == projected_text(text@, query@),
{
    if query.is_empty() {
        return text.to_owned();
    }
    let needle = chars_of(query);
    let letters = chars_of(text);
    let lines = lines_of(&letters);
    let ghost all = lines.deep_view();
    let mut out: Vec<char> = Vec::new();
    let mut kept_any = false;
    let mut i: usize = 0;
    while i < lines.len()
        invariant
            i <= lines.len(),
            all == lines.deep_view(),
            needle@ == query@,
            out@ == join_lines(matching(all.take(i as int), query@)),
            kept_any == (matching(all.take(i as int), query@).len() > 0),
        decreases lines.len() - i,
    {
        let line = &lines[i];
        let ghost kept = matching(all.take(i as int), query@);
        proof {
            assert(all.take(i + 1).drop_last() =~= all.take(i as int));
            assert(line.deep_view() =~= line@);
            assert(all.take(i + 1).last() == line@);
        }
        if contains_chars(line, &needle) {
            if kept_any {
                out.push('\n');
            }
            append_chars(&mut out, line);
            proof {
                assert(kept.push(line@).drop_last() =~= kept);
                if kept.len() > 0 {
                    assert(out@ =~= join_lines(kept) + seq!['\n'] + line@);
                } else {
                    assert(out@ =~= line@);
                }
            }
            kept_any = true;
        }
        i += 1;
    }
    assert(all.take(i as int) =~= all);
    string_from_chars(&out)
}

} // verus!
