//! What holds of every session, whatever steps it takes.

use vstd::prelude::*;
use crate::filter::{filtered_view, filtered_view_entries_match};
use crate::history::{stored_after, StoreActionView};
use crate::manpage::PageView;
use crate::session::{first_position, is_first_at, lemma_first_position, SessionView};

verus! {

/// A step of a session.
pub enum Event {
    /// The filter query was replaced.
    FilterQuery(Seq<char>),
    /// A name was selected.
    Select(Seq<char>),
    /// The focus was moved forward.
    Next,
    /// The focus was moved back.
    Previous,
    /// The result of a fetch for a command came in.
    Page(Seq<char>, PageView),
    /// A command of the history was chosen.
    HistoryChoice(Seq<char>),
    /// A name was entered in the history.
    Entry(Seq<char>),
    /// The history was emptied.
    ClearHistory,
    /// The history was loaded from the store.
    Load(Option<Seq<char>>),
    /// The manual-page search query was replaced.
    PageQuery(Seq<char>),
    /// The host reported whether it could touch the store.
    StoreOutcome(bool),
}

/// The state after one step.
pub open spec fn after_event(state: SessionView, event: Event) -> SessionView {
    match event {
        Event::FilterQuery(query) => state.after_query(query),
        Event::Select(name) => state.after_select(name),
        Event::Next => state.after_next(),
        Event::Previous => state.after_previous(),
        Event::Page(command, fetched) => state.after_page(command, fetched),
        Event::HistoryChoice(name) => state.after_history_choice(name),
        Event::Entry(name) => state.after_entry(name),
        Event::ClearHistory => state.after_clear(),
        Event::Load(stored) => state.after_load(stored),
        Event::PageQuery(query) => state.after_page_query(query),
        Event::StoreOutcome(done) => state.after_store_outcome(done),
    }
}

/// The state after the steps, taken in order.
pub open spec fn after_events(state: SessionView, events: Seq<Event>) -> SessionView
    decreases events.len(),
{
    if events.len() == 0 {
        state
    } else {
        after_event(after_events(state, events.drop_last()), events.last())
    }
}

/// A new session is consistent.
pub proof fn initial_state_is_consistent(commands: Seq<Seq<char>>, stored: Option<Seq<char>>)
    ensures
        SessionView::initial(commands, stored).wf(),
{
}

/// One step takes a consistent state to a consistent state.
pub proof fn step_keeps_consistency(state: SessionView, event: Event)
    requires
        state.wf(),
    ensures
        after_event(state, event).wf(),
{
    let shown = state.filtered_commands;
    match event {
        Event::FilterQuery(query) => {
            let view = filtered_view(state.commands, query);
            if view.len() > 0 {
                assert(view.contains(view[0]));
            }
        },
        Event::Next => {
            match state.selected_command {
                Some(name) => {
                    let at = first_position(shown, name);
                    if shown.contains(name) && at + 1 < shown.len() {
                        let first = choose|k: int| 0 <= k < shown.len() && shown[k] == name;
                        lemma_first_is_chosen(shown, name, first);
                        assert(shown.contains(shown[at + 1]));
                    }
                },
                None => {
                    if shown.len() > 0 {
                        assert(shown.contains(shown[0]));
                    }
                },
            }
        },
        Event::Previous => {
            match state.selected_command {
                Some(name) => {
                    let at = first_position(shown, name);
                    if shown.contains(name) && at > 0 {
                        let first = choose|k: int| 0 <= k < shown.len() && shown[k] == name;
                        lemma_first_is_chosen(shown, name, first);
                        assert(shown.contains(shown[at - 1]));
                    }
                },
                None => {
                    if shown.len() > 0 {
                        assert(shown.contains(shown[shown.len() - 1]));
                    }
                },
            }
        },
        Event::HistoryChoice(_) => {
            filtered_view_entries_match(state.commands, state.search_query);
        },
        _ => {},
    }
}

/// A name that occurs in a sequence has a first position there.
pub proof fn lemma_first_is_chosen(names: Seq<Seq<char>>, name: Seq<char>, at: int)
    requires
        0 <= at < names.len(),
        names[at] == name,
    ensures
        is_first_at(names, name, first_position(names, name)),
        first_position(names, name) <= at,
    decreases at,
{
    if exists|j: int| 0 <= j < at && names[j] == name {
        let j = choose|j: int| 0 <= j < at && names[j] == name;
        lemma_first_is_chosen(names, name, j);
    } else {
        assert(is_first_at(names, name, at));
        lemma_first_position(names, name, at);
    }
}

/// Whatever steps a session takes from a consistent state, the names on
/// show stay the filtered view of the catalog under the query, and the name
/// in focus is one of them; where nothing is on show, no name is in focus.
pub proof fn steps_keep_consistency(state: SessionView, events: Seq<Event>)
    requires
        state.wf(),
    ensures
        after_events(state, events).wf(),
        after_events(state, events).selected_command matches Some(name) ==> after_events(
            state,
            events,
        ).filtered_commands.contains(name),
        after_events(state, events).filtered_commands.len() == 0 ==> after_events(
            state,
            events,
        ).selected_command is None,
        after_events(state, events).commands == state.commands,
    decreases events.len(),
{
    if events.len() > 0 {
        steps_keep_consistency(state, events.drop_last());
        step_keeps_consistency(after_events(state, events.drop_last()), events.last());
    }
}

/// A step forward from the last name on show changes nothing and asks for
/// no fetch. The name in focus is taken by its first occurrence, so the
/// law speaks of a name that does not occur before the last position.
pub proof fn next_at_last_changes_nothing(state: SessionView, name: Seq<char>)
    requires
        state.selected_command == Some(name),
        is_first_at(state.filtered_commands, name, state.filtered_commands.len() - 1),
    ensures
        state.next_target() is None,
        state.after_next() == state,
{
    lemma_first_position(state.filtered_commands, name, state.filtered_commands.len() - 1);
}

/// A step back from the first name on show changes nothing and asks for no
/// fetch.
pub proof fn previous_at_first_changes_nothing(state: SessionView, name: Seq<char>)
    requires
        state.selected_command == Some(name),
        state.filtered_commands.len() > 0,
        state.filtered_commands[0] == name,
    ensures
        state.previous_target() is None,
        state.after_previous() == state,
{
    lemma_first_position(state.filtered_commands, name, 0);
}

/// A step forward leaves the name in focus as it is exactly where that
/// name has no other name behind its first occurrence.
pub proof fn next_keeps_focus_iff(state: SessionView, name: Seq<char>)
    requires
        state.selected_command == Some(name),
        state.filtered_commands.contains(name),
    ensures
        state.after_next().selected_command == Some(name) <==> {
            let at = first_position(state.filtered_commands, name);
            at + 1 < state.filtered_commands.len() ==> state.filtered_commands[at + 1] == name
        },
{
}

/// The history gains an entry exactly where the result of a fetch for the
/// command in focus is manual text with at least one character and the
/// history does not hold the command yet; the entry is that command, put
/// last. In every other case the history stays as it is.
pub proof fn history_gains_entry_iff(state: SessionView, command: Seq<char>, fetched: PageView)
    ensures
        state.after_page(command, fetched).command_history == if {
            &&& state.selected_command == Some(command)
            &&& fetched matches PageView::Available(text)
            &&& text.len() > 0
            &&& !state.command_history.contains(command)
        } {
            state.command_history.push(command)
        } else {
            state.command_history
        },
{
}

/// A history without a name twice stays so when the result of a fetch
/// comes in.
pub proof fn history_gains_no_duplicate(state: SessionView, command: Seq<char>, fetched: PageView)
    requires
        state.command_history.no_duplicates(),
    ensures
        state.after_page(command, fetched).command_history.no_duplicates(),
{
    let after = state.after_page(command, fetched).command_history;
    if after != state.command_history {
        assert(after == state.command_history.push(command));
        assert forall|i: int, j: int| 0 <= i < after.len() && 0 <= j < after.len() && i
            != j implies after[i] != after[j] by {
            if i < state.command_history.len() && j < state.command_history.len() {
                assert(after[i] == state.command_history[i]);
                assert(after[j] == state.command_history[j]);
            } else if i < state.command_history.len() {
                assert(state.command_history.contains(state.command_history[i]));
            } else {
                assert(state.command_history.contains(state.command_history[j]));
            }
        }
    }
}

/// A failed fetch and a fetch without a manual entry leave the history as
/// it is and put their result on show.
pub proof fn failed_fetch_keeps_history(state: SessionView, command: Seq<char>, fetched: PageView)
    requires
        state.selected_command == Some(command),
        !(fetched is Available),
    ensures
        state.after_page(command, fetched).command_history == state.command_history,
        state.after_page(command, fetched).manpage == fetched,
        state.page_action(command, fetched) is Nothing,
{
}

/// After the history was emptied and the store did what it was asked, a
/// session that starts on that store has an empty history.
pub proof fn cleared_history_reloads_empty(
    stored_before: Option<Seq<char>>,
    commands: Seq<Seq<char>>,
)
    ensures
        SessionView::initial(
            commands,
            stored_after(stored_before, StoreActionView::Remove),
        ).command_history == Seq::<Seq<char>>::empty(),
{
}

/// Emptying the filter query puts the whole catalog on show, in its own
/// order.
pub proof fn empty_query_shows_catalog(state: SessionView)
    ensures
        state.after_query(Seq::empty()).filtered_commands == state.commands,
{
}

} // verus!
