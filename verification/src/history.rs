//! The history of viewed commands and its stored form, a JSON array of
//! strings.

use vstd::prelude::*;

verus! {

/// The error type of `serde_json`, carried through unread.
#[verifier::external_type_specification]
#[verifier::external_body]
pub struct ExJsonError(serde_json::Error);

/// The list of strings that `serde_json::from_str` reads from `text` as a
/// `Vec<String>`, or `None` where it reports an error.
pub uninterp spec fn json_string_list(text: Seq<char>) -> Option<Seq<Seq<char>>>;

/// The text that `serde_json::to_string` writes for a list of strings, or
/// `None` where it reports an error.
pub uninterp spec fn json_text(entries: Seq<Seq<char>>) -> Option<Seq<char>>;

/// Calls `serde_json::from_str` for a `Vec<String>`. The contract gives its
/// result the name `json_string_list`: the outcome depends on the text
/// alone.
#[verifier::external_body]
fn json_to_strings(text: &str) -> (parsed: Result<Vec<String>, serde_json::Error>)
    ensures
        parsed matches Ok(entries) ==> json_string_list(text@) == Some(entries.deep_view()),
        parsed is Err ==> json_string_list(text@) is None,
{
    serde_json::from_str::<Vec<String>>(text)
}

/// Calls `serde_json::to_string` on a list of strings. The contract gives
/// its result the name `json_text`: the outcome depends on the list alone.
#[verifier::external_body]
fn strings_to_json(entries: &Vec<String>) -> (written: Result<String, serde_json::Error>)
    ensures
        written matches Ok(text) ==> json_text(entries.deep_view()) == Some(text@),
        written is Err ==> json_text(entries.deep_view()) is None,
{
    serde_json::to_string(entries)
}

/// Why a stored history could not be used.
#[derive(Clone, Copy, Debug, PartialEq, Eq)]
pub enum HistoryError {
    /// The stored text is not a JSON array of strings.
    Malformed,
    /// The history could not be written, as JSON or to the store.
    Unwritable,
}

/// What is to be done to the stored history after a step of the session.
#[derive(Clone, Debug, PartialEq, Eq)]
pub enum StoreAction {
    /// The stored history stays as it is.
    Nothing,
    /// The stored history is replaced by this text.
    Write(String),
    /// The stored history is removed.
    Remove,
}

/// A `StoreAction` with its text as a sequence of characters.
pub enum StoreActionView {
    Nothing,
    Write(Seq<char>),
    Remove,
}

impl View for StoreAction {
    type V = StoreActionView;

    open spec fn view(&self) -> StoreActionView {
        match self {
            StoreAction::Nothing => StoreActionView::Nothing,
            StoreAction::Write(text) => StoreActionView::Write(text@),
            StoreAction::Remove => StoreActionView::Remove,
        }
    }
}

/// What the store holds after `action`, given what it held before: `None`
/// stands for a store without an entry.
pub open spec fn stored_after(before: Option<Seq<char>>, action: StoreActionView) -> Option<
    Seq<char>,
> {
    match action {
        StoreActionView::Nothing => before,
        StoreActionView::Write(text) => Some(text),
        StoreActionView::Remove => None,
    }
}

/// The history that a store yields: empty where it has no entry or holds
/// text that is no JSON array of strings, else the list that the text
/// denotes.
pub open spec fn loaded_history(stored: Option<Seq<char>>) -> Seq<Seq<char>> {
    match stored {
        Some(text) => match json_string_list(text) {
            Some(entries) => entries,
            None => Seq::empty(),
        },
        None => Seq::empty(),
    }
}

/// The action that persists `entries`: a write of their JSON text, or
/// nothing where they cannot be written.
pub open spec fn persist_action(entries: Seq<Seq<char>>) -> StoreActionView {
    match json_text(entries) {
        Some(text) => StoreActionView::Write(text),
        None => StoreActionView::Nothing,
    }
}

/// Reads a history from its stored text.
pub fn parse_history(text: &str) -> (parsed: Result<Vec<String>, HistoryError>)
    ensures
        parsed matches Ok(entries) ==> json_string_list(text@) == Some(entries.deep_view()),
        parsed matches Err(e) ==> e == HistoryError::Malformed && json_string_list(text@) is None,
{
    match json_to_strings(text) {
        Ok(entries) => Ok(entries),
        Err(_) => Err(HistoryError::Malformed),
    }
}

/// Writes a history as the text to store.
pub fn render_history(entries: &Vec<String>) -> (written: Result<String, HistoryError>)
    ensures
        written matches Ok(text) ==> json_text(entries.deep_view()) == Some(text@),
        written matches Err(e) ==> e == HistoryError::Unwritable && json_text(
            entries.deep_view(),
        ) is None,
{
    match strings_to_json(entries) {
        Ok(text) => Ok(text),
        Err(_) => Err(HistoryError::Unwritable),
    }
}

/// Loads the history from what the store holds: `None` where it has no
/// entry. The flag reports a parse failure.
pub fn load_history(stored: Option<&str>) -> (loaded: (Vec<String>, bool))
    ensures
        loaded.0.deep_view() == loaded_history(
            match stored {
                Some(text) => Some(text@),
                None => None,
            },
        ),
        loaded.1 == (stored matches Some(text) && json_string_list(text@) is None),
{
    match stored {
        Some(text) => match parse_history(text) {
            Ok(entries) => (entries, false),
            Err(_) => {
                let empty: Vec<String> = Vec::new();
                assert(empty.deep_view() =~= Seq::empty());
                (empty, true)
            },
        },
        None => {
            let empty: Vec<String> = Vec::new();
            assert(empty.deep_view() =~= Seq::empty());
            (empty, false)
        },
    }
}

/// The action that persists `entries`.
pub fn save_history(entries: &Vec<String>) -> (action: StoreAction)
    ensures
        action@ == persist_action(entries.deep_view()),
{
    match render_history(entries) {
        Ok(text) => StoreAction::Write(text),
        Err(_) => StoreAction::Nothing,
    }
}

/// A store that was removed yields an empty history when it is next
/// loaded, whatever it held before.
pub proof fn removed_store_loads_empty(before: Option<Seq<char>>)
    ensures
        loaded_history(stored_after(before, StoreActionView::Remove)) == Seq::<Seq<char>>::empty(),
{
}

/// A store without an entry yields an empty history.
pub proof fn missing_store_loads_empty()
    ensures
        loaded_history(None) == Seq::<Seq<char>>::empty(),
{
}

} // verus!
