//! The browsing session: the catalog, the live filter, the selection, the
//! manual page on show and the history of viewed commands. Each step takes
//! the session from one state to the next and says what the host is to do:
//! fetch a manual page, or touch the stored history.

use vstd::prelude::*;
use crate::filter::{filter_names, filtered_view, filtered_view_entries_match};
use crate::history::{
    json_string_list, load_history, loaded_history, persist_action, save_history, HistoryError,
    StoreAction, StoreActionView,
};
use crate::manpage::{project_text, projected_text, ManpageResult, PageView};
use crate::search::{search_address, search_url};

verus! {

/// The state of a browsing session.
pub struct MyApp {
    commands: Vec<String>,
    filtered_commands: Vec<String>,
    selected_command: Option<String>,
    manpage: ManpageResult,
    search_query: String,
    manpage_search_query: String,
    command_history: Vec<String>,
    history_error: Option<HistoryError>,
}

/// The state of a session as plain mathematical values.
pub struct SessionView {
    /// The catalog, fixed when the session is made.
    pub commands: Seq<Seq<char>>,
    /// The names on show.
    pub filtered_commands: Seq<Seq<char>>,
    /// The name in focus, if any.
    pub selected_command: Option<Seq<char>>,
    /// The manual page on show.
    pub manpage: PageView,
    /// The filter query.
    pub search_query: Seq<char>,
    /// The query that the manual text is projected by.
    pub manpage_search_query: Seq<char>,
    /// The commands whose manual text was shown, oldest first.
    pub command_history: Seq<Seq<char>>,
    /// The last failure of loading or storing the history, if any.
    pub history_error: Option<HistoryError>,
}

/// `at` is the first position of `name` in `names`.
pub open spec fn is_first_at(names: Seq<Seq<char>>, name: Seq<char>, at: int) -> bool {
    &&& 0 <= at < names.len()
    &&& names[at] == name
    &&& forall|j: int| 0 <= j < at ==> names[j] != name
}

/// The first position of `name` in `names`, where it occurs.
pub open spec fn first_position(names: Seq<Seq<char>>, name: Seq<char>) -> int {
    choose|at: int| is_first_at(names, name, at)
}

impl SessionView {
    /// The state is consistent: the names on show are the filtered view of
    /// the catalog under the query, the name in focus is one of them, and a
    /// manual text on show is not empty.
    pub open spec fn wf(self) -> bool {
        &&& self.filtered_commands == filtered_view(self.commands, self.search_query)
        &&& self.selected_command matches Some(name) ==> self.filtered_commands.contains(name)
        &&& self.manpage matches PageView::Available(text) ==> text.len() > 0
    }

    /// The state in which a session starts.
    pub open spec fn initial(
        commands: Seq<Seq<char>>,
        stored_history: Option<Seq<char>>,
    ) -> SessionView {
        SessionView {
            commands,
            filtered_commands: commands,
            selected_command: None,
            manpage: PageView::Empty,
            search_query: Seq::empty(),
            manpage_search_query: Seq::empty(),
            command_history: loaded_history(stored_history),
            history_error: load_failure(stored_history),
        }
    }

    /// The state after the view was computed anew from the query: the
    /// first name on show comes into focus; where nothing is on show, the
    /// focus and the manual page are cleared.
    pub open spec fn after_filter(self) -> SessionView {
        let shown = filtered_view(self.commands, self.search_query);
        if shown.len() > 0 {
            SessionView { filtered_commands: shown, selected_command: Some(shown[0]), ..self }
        } else {
            SessionView {
                filtered_commands: shown,
                selected_command: None,
                manpage: PageView::Empty,
                ..self
            }
        }
    }

    /// The name whose manual page is to be fetched after the view was
    /// computed anew.
    pub open spec fn filter_target(self) -> Option<Seq<char>> {
        let shown = filtered_view(self.commands, self.search_query);
        if shown.len() > 0 {
            Some(shown[0])
        } else {
            None
        }
    }

    /// The state after the filter query was replaced by `query`.
    pub open spec fn after_query(self, query: Seq<char>) -> SessionView {
        (SessionView { search_query: query, ..self }).after_filter()
    }

    /// The name whose manual page is to be fetched after the filter query
    /// was replaced by `query`.
    pub open spec fn query_target(self, query: Seq<char>) -> Option<Seq<char>> {
        (SessionView { search_query: query, ..self }).filter_target()
    }

    /// The state with `name` in focus.
    pub open spec fn focused_on(self, name: Seq<char>) -> SessionView {
        SessionView { selected_command: Some(name), ..self }
    }

    /// The name that an explicit selection of `name` brings into focus:
    /// `name` where it is on show, else none.
    pub open spec fn select_target(self, name: Seq<char>) -> Option<Seq<char>> {
        if self.filtered_commands.contains(name) {
            Some(name)
        } else {
            None
        }
    }

    /// The name that a step forward brings into focus: the name behind the
    /// first occurrence of the name in focus, or the first name on show
    /// where none is in focus. There is none at the last name and where
    /// nothing is on show.
    pub open spec fn next_target(self) -> Option<Seq<char>> {
        let shown = self.filtered_commands;
        match self.selected_command {
            Some(name) => {
                let at = first_position(shown, name);
                if shown.contains(name) && at + 1 < shown.len() {
                    Some(shown[at + 1])
                } else {
                    None
                }
            },
            None => if shown.len() > 0 {
                Some(shown[0])
            } else {
                None
            },
        }
    }

    /// The name that a step back brings into focus: the name before the
    /// first occurrence of the name in focus, or the last name on show
    /// where none is in focus. There is none at the first name and where
    /// nothing is on show.
    pub open spec fn previous_target(self) -> Option<Seq<char>> {
        let shown = self.filtered_commands;
        match self.selected_command {
            Some(name) => {
                let at = first_position(shown, name);
                if shown.contains(name) && at > 0 {
                    Some(shown[at - 1])
                } else {
                    None
                }
            },
            None => if shown.len() > 0 {
                Some(shown.last())
            } else {
                None
            },
        }
    }

    /// The state after a move of the focus to `target`; without a target
    /// the state stays as it is.
    pub open spec fn moved_to(self, target: Option<Seq<char>>) -> SessionView {
        match target {
            Some(name) => self.focused_on(name),
            None => self,
        }
    }

    /// The state after an explicit selection of `name`.
    pub open spec fn after_select(self, name: Seq<char>) -> SessionView {
        self.moved_to(self.select_target(name))
    }

    /// The state after a step forward.
    pub open spec fn after_next(self) -> SessionView {
        self.moved_to(self.next_target())
    }

    /// The state after a step back.
    pub open spec fn after_previous(self) -> SessionView {
        self.moved_to(self.previous_target())
    }

    /// The state after the history was emptied.
    pub open spec fn after_clear(self) -> SessionView {
        SessionView { command_history: Seq::empty(), ..self }
    }

    /// The state after the history was loaded from a store that holds
    /// `stored`.
    pub open spec fn after_load(self, stored: Option<Seq<char>>) -> SessionView {
        SessionView {
            command_history: loaded_history(stored),
            history_error: load_failure(stored),
            ..self
        }
    }

    /// The state after the manual-page search query was replaced by
    /// `query`.
    pub open spec fn after_page_query(self, query: Seq<char>) -> SessionView {
        SessionView { manpage_search_query: query, ..self }
    }

    /// The state after the host reported whether it did to the store what
    /// it was asked: a failure is noted, a success clears the note.
    pub open spec fn after_store_outcome(self, done: bool) -> SessionView {
        SessionView {
            history_error: if done {
                None
            } else {
                Some(HistoryError::Unwritable)
            },
            ..self
        }
    }

    /// A fetch for `command` is applied only while `command` is in focus.
    pub open spec fn accepts_page(self, command: Seq<char>) -> bool {
        self.selected_command == Some(command)
    }

    /// The state after `name` was entered in the history: it is put behind
    /// the entries unless the history holds it. Where the longer history
    /// cannot be written, that is noted as the last failure.
    pub open spec fn after_entry(self, name: Seq<char>) -> SessionView {
        if self.command_history.contains(name) {
            self
        } else {
            let history = self.command_history.push(name);
            SessionView {
                command_history: history,
                history_error: if persist_action(history) is Nothing {
                    Some(HistoryError::Unwritable)
                } else {
                    self.history_error
                },
                ..self
            }
        }
    }

    /// What is to be done to the store after `name` was entered in the
    /// history: the history is written where it gained the entry.
    pub open spec fn entry_action(self, name: Seq<char>) -> StoreActionView {
        if self.command_history.contains(name) {
            StoreActionView::Nothing
        } else {
            persist_action(self.command_history.push(name))
        }
    }

    /// The state after the result of a fetch for `command` came in. The
    /// page replaces the one on show, and where it is manual text,
    /// `command` is entered in the history. A result for a command that is
    /// not in focus is dropped.
    pub open spec fn after_page(self, command: Seq<char>, fetched: PageView) -> SessionView {
        if !self.accepts_page(command) {
            self
        } else if shown_page(fetched) is Available {
            (SessionView { manpage: shown_page(fetched), ..self }).after_entry(command)
        } else {
            SessionView { manpage: shown_page(fetched), ..self }
        }
    }

    /// What is to be done to the store after the result of a fetch came in.
    pub open spec fn page_action(self, command: Seq<char>, fetched: PageView) -> StoreActionView {
        if self.accepts_page(command) && shown_page(fetched) is Available {
            self.entry_action(command)
        } else {
            StoreActionView::Nothing
        }
    }

    /// The state after a command of the history was chosen: the filter
    /// query is emptied, so that the whole catalog is on show, and the
    /// command comes into focus where the catalog holds it. A name that
    /// the history does not hold changes nothing.
    pub open spec fn after_history_choice(self, name: Seq<char>) -> SessionView {
        if self.command_history.contains(name) {
            let whole = SessionView {
                search_query: Seq::empty(),
                filtered_commands: self.commands,
                ..self
            };
            whole.after_select(name)
        } else {
            self
        }
    }

    /// The name whose manual page is to be fetched after a command of the
    /// history was chosen.
    pub open spec fn history_target(self, name: Seq<char>) -> Option<Seq<char>> {
        if self.command_history.contains(name) && self.commands.contains(name) {
            Some(name)
        } else {
            None
        }
    }

    /// The manual text as shown: the text of the page on show, projected by
    /// the manual-page search query; empty where the page is no manual
    /// text.
    pub open spec fn shown_text(self) -> Seq<char> {
        match self.manpage {
            PageView::Available(text) => projected_text(text, self.manpage_search_query),
            _ => Seq::empty(),
        }
    }

    /// The address of the search for example usages of the command in
    /// focus, if one is.
    pub open spec fn search_target(self) -> Option<Seq<char>> {
        match self.selected_command {
            Some(name) => Some(search_address(name)),
            None => None,
        }
    }
}

/// The page that is put on show for a fetched one: a manual text without
/// characters counts as no entry.
pub open spec fn shown_page(fetched: PageView) -> PageView {
    match fetched {
        PageView::Available(text) => if text.len() == 0 {
            PageView::Empty
        } else {
            fetched
        },
        _ => fetched,
    }
}

/// The failure that loading a stored history reports: text that is no JSON
/// array of strings is malformed; a store without an entry is no failure.
pub open spec fn load_failure(stored: Option<Seq<char>>) -> Option<HistoryError> {
    match stored {
        Some(text) => if json_string_list(text) is None {
            Some(HistoryError::Malformed)
        } else {
            None
        },
        None => None,
    }
}

/// A stored text as a sequence of characters.
pub open spec fn text_view(stored: Option<&str>) -> Option<Seq<char>> {
    match stored {
        Some(text) => Some(text@),
        None => None,
    }
}

impl View for MyApp {
    type V = SessionView;

    closed spec fn view(&self) -> SessionView {
        SessionView {
            commands: self.commands.deep_view(),
            filtered_commands: self.filtered_commands.deep_view(),
            selected_command: self.selected_command.deep_view(),
            manpage: self.manpage@,
            search_query: self.search_query@,
            manpage_search_query: self.manpage_search_query@,
            command_history: self.command_history.deep_view(),
            history_error: self.history_error,
        }
    }
}

/// A copy of each name, in order.
fn copy_names(names: &Vec<String>) -> (copy: Vec<String>)
    ensures
        copy.deep_view() == names.deep_view(),
{
    let mut copy: Vec<String> = Vec::new();
    let mut i: usize = 0;
    while i < names.len()
        invariant
            i <= names.len(),
            copy.deep_view() == names.deep_view().take(i as int),
        decreases names.len() - i,
    {
        let ghost before = copy.deep_view();
        copy.push(names[i].clone());
        assert(copy.deep_view() =~= before.push(names[i as int]@));
        i += 1;
        assert(names.deep_view().take(i as int) =~= before.push(names[i - 1]@));
    }
    assert(names.deep_view().take(i as int) =~= names.deep_view());
    copy
}

/// Finds the first position of `name` in `names`.
fn position_of(names: &Vec<String>, name: &String) -> (found: Option<usize>)
    ensures
        found matches Some(at) ==> is_first_at(names.deep_view(), name@, at as int),
        found is None ==> !names.deep_view().contains(name@),
{
    let ghost all = names.deep_view();
    let mut i: usize = 0;
    while i < names.len()
        invariant
            i <= names.len(),
            all == names.deep_view(),
            forall|j: int| 0 <= j < i ==> all[j] != name@,
        decreases names.len() - i,
    {
        if names[i] == *name {
            assert(all[i as int] == names@[i as int]@);
            return Some(i);
        }
        assert(all[i as int] == names@[i as int]@);
        i += 1;
    }
    None
}

/// The first position of a name is the only position that is first.
pub proof fn lemma_first_position(names: Seq<Seq<char>>, name: Seq<char>, at: int)
    requires
        is_first_at(names, name, at),
    ensures
        first_position(names, name) == at,
        names.contains(name),
{
    let chosen = first_position(names, name);
    assert(is_first_at(names, name, chosen));
    if chosen < at {
        assert(names[chosen] != name);
    }
    if at < chosen {
        assert(names[at] != name);
    }
}

impl MyApp {
    /// Starts a session over `commands` with the history that the store
    /// holds: `stored_history` is its text, or `None` where the store has no
    /// entry. Every command is on show and none is in focus.
    pub fn new(commands: Vec<String>, stored_history: Option<&str>) -> (app: MyApp)
        ensures
            app@ == SessionView::initial(commands.deep_view(), text_view(stored_history)),
            app@.wf(),
    {
        let (command_history, failed) = load_history(stored_history);
        let filtered_commands = copy_names(&commands);
        MyApp {
            commands,
            filtered_commands,
            selected_command: None,
            manpage: ManpageResult::Empty,
            search_query: String::new(),
            manpage_search_query: String::new(),
            command_history,
            history_error: if failed {
                Some(HistoryError::Malformed)
            } else {
                None
            },
        }
    }

    /// Computes the names on show anew from the filter query and brings the
    /// first of them into focus. Returns the name whose manual page is to
    /// be fetched, if any.
    pub fn filter_commands(&mut self) -> (fetch: Option<String>)
        ensures
            final(self)@ == old(self)@.after_filter(),
            fetch.deep_view() == old(self)@.filter_target(),
            old(self)@.wf() ==> final(self)@.wf(),
    {
        self.filtered_commands = filter_names(&self.commands, self.search_query.as_str());
        if self.filtered_commands.len() > 0 {
            let first = self.filtered_commands[0].clone();
            self.selected_command = Some(first.clone());
            Some(first)
        } else {
            self.selected_command = None;
            self.manpage = ManpageResult::Empty;
            None
        }
    }
    /// Replaces the filter query and computes the names on show anew.
    /// Returns the name whose manual page is to be fetched, if any.
    pub fn set_filter_query(&mut self, query: String) -> (fetch: Option<String>)
        ensures
            final(self)@ == old(self)@.after_query(query@),
            fetch.deep_view() == old(self)@.query_target(query@),
            old(self)@.wf() ==> final(self)@.wf(),
    {
        self.search_query = query;
        self.filter_commands()
    }

    /// Brings `command` into focus where it is on show; otherwise nothing
    /// changes. Returns the name whose manual page is to be fetched, if
    /// any.
    pub fn select_command(&mut self, command: &str) -> (fetch: Option<String>)
        ensures
            final(self)@ == old(self)@.after_select(command@),
            fetch.deep_view() == old(self)@.select_target(command@),
            old(self)@.wf() ==> final(self)@.wf(),
    {
        let name = command.to_owned();
        match position_of(&self.filtered_commands, &name) {
            Some(_) => {
                self.selected_command = Some(name.clone());
                Some(name)
            },
            None => None,
        }
    }

    /// Moves the focus one name forward, or to the first name where none
    /// is in focus. At the last name nothing changes. Returns the name
    /// whose manual page is to be fetched, if any.
    pub fn select_next(&mut self) -> (fetch: Option<String>)
        ensures
            final(self)@ == old(self)@.after_next(),
            fetch.deep_view() == old(self)@.next_target(),
            old(self)@.wf() ==> final(self)@.wf(),
    {
        let target: usize = match &self.selected_command {
            Some(name) => match position_of(&self.filtered_commands, name) {
                Some(at) => {
                    proof {
                        lemma_first_position(self.filtered_commands.deep_view(), name@, at as int);
                    }
                    if self.filtered_commands.len() - at > 1 {
                        at + 1
                    } else {
                        return None;
                    }
                },
                None => {
                    return None;
                },
            },
            None => if self.filtered_commands.len() > 0 {
                0
            } else {
                return None;
            },
        };
        let next = self.filtered_commands[target].clone();
        self.selected_command = Some(next.clone());
        assert(self.filtered_commands.deep_view()[target as int] == next@);
        Some(next)
    }

    /// Moves the focus one name back, or to the last name where none is in
    /// focus. At the first name nothing changes. Returns the name whose
    /// manual page is to be fetched, if any.
    pub fn select_previous(&mut self) -> (fetch: Option<String>)
        ensures
            final(self)@ == old(self)@.after_previous(),
            fetch.deep_view() == old(self)@.previous_target(),
            old(self)@.wf() ==> final(self)@.wf(),
    {
        let target: usize = match &self.selected_command {
            Some(name) => match position_of(&self.filtered_commands, name) {
                Some(at) => {
                    proof {
                        lemma_first_position(self.filtered_commands.deep_view(), name@, at as int);
                    }
                    if at > 0 {
                        at - 1
                    } else {
                        return None;
                    }
                },
                None => {
                    return None;
                },
            },
            None => if self.filtered_commands.len() > 0 {
                self.filtered_commands.len() - 1
            } else {
                return None;
            },
        };
        let previous = self.filtered_commands[target].clone();
        self.selected_command = Some(previous.clone());
        assert(self.filtered_commands.deep_view()[target as int] == previous@);
        Some(previous)
    }
    /// Enters `query` in the history unless it is there. Returns what is
    /// to be done to the store.
    pub fn add_to_search_history(&mut self, query: String) -> (action: StoreAction)
        ensures
            final(self)@ == old(self)@.after_entry(query@),
            action@ == old(self)@.entry_action(query@),
            old(self)@.wf() ==> final(self)@.wf(),
    {
        match position_of(&self.command_history, &query) {
            Some(at) => {
                proof {
                    lemma_first_position(self.command_history.deep_view(), query@, at as int);
                }
                StoreAction::Nothing
            },
            None => {
                let ghost before = self.command_history.deep_view();
                self.command_history.push(query);
                assert(self.command_history.deep_view() =~= before.push(query@));
                let action = save_history(&self.command_history);
                match &action {
                    StoreAction::Nothing => {
                        self.history_error = Some(HistoryError::Unwritable);
                    },
                    _ => {},
                }
                action
            },
        }
    }

    /// Takes in the result of a fetch for `command`: the page replaces the
    /// one on show, and `command` is entered in the history where the page
    /// is manual text. A result for a command that is not in focus is
    /// dropped. Returns what is to be done to the store.
    pub fn update_manpage(&mut self, command: &str, fetched: ManpageResult) -> (action: StoreAction)
        ensures
            final(self)@ == old(self)@.after_page(command@, fetched@),
            action@ == old(self)@.page_action(command@, fetched@),
            old(self)@.wf() ==> final(self)@.wf(),
    {
        let name = command.to_owned();
        let in_focus = match &self.selected_command {
            Some(selected) => *selected == name,
            None => false,
        };
        if !in_focus {
            return StoreAction::Nothing;
        }
        match fetched {
            ManpageResult::Available(text) => {
                if text.as_str().is_empty() {
                    self.manpage = ManpageResult::Empty;
                    StoreAction::Nothing
                } else {
                    self.manpage = ManpageResult::Available(text);
                    self.add_to_search_history(name)
                }
            },
            ManpageResult::Empty => {
                self.manpage = ManpageResult::Empty;
                StoreAction::Nothing
            },
            ManpageResult::FetchError(message) => {
                self.manpage = ManpageResult::FetchError(message);
                StoreAction::Nothing
            },
        }
    }

    /// Chooses a command of the history: the filter query is emptied, the
    /// whole catalog is on show, and the command comes into focus where
    /// the catalog holds it. Returns the name whose manual page is to be
    /// fetched, if any.
    pub fn select_from_history(&mut self, command: &str) -> (fetch: Option<String>)
        ensures
            final(self)@ == old(self)@.after_history_choice(command@),
            fetch.deep_view() == old(self)@.history_target(command@),
            old(self)@.wf() ==> final(self)@.wf(),
    {
        let name = command.to_owned();
        match position_of(&self.command_history, &name) {
            Some(at) => {
                proof {
                    lemma_first_position(self.command_history.deep_view(), name@, at as int);
                    if old(self)@.wf() {
                        filtered_view_entries_match(old(self)@.commands, old(self)@.search_query);
                    }
                }
                self.search_query = String::new();
                self.filtered_commands = copy_names(&self.commands);
                self.select_command(command)
            },
            None => None,
        }
    }

    /// Empties the history. The stored history is to be removed.
    pub fn clear_history(&mut self) -> (action: StoreAction)
        ensures
            final(self)@ == old(self)@.after_clear(),
            action@ == StoreActionView::Remove,
            old(self)@.wf() ==> final(self)@.wf(),
    {
        self.command_history = Vec::new();
        assert(self.command_history.deep_view() =~= Seq::empty());
        StoreAction::Remove
    }

    /// Replaces the query that the manual text is projected by.
    pub fn set_manpage_search_query(&mut self, query: String)
        ensures
            final(self)@ == old(self)@.after_page_query(query@),
    {
        self.manpage_search_query = query;
    }

    /// The manual text as shown under the manual-page search query.
    pub fn filter_manpage(&self) -> (shown: String)
        ensures
            shown@ == self@.shown_text(),
    {
        match &self.manpage {
            ManpageResult::Available(text) => project_text(
                text.as_str(),
                self.manpage_search_query.as_str(),
            ),
            _ => String::new(),
        }
    }

    /// The address of the web search for example usages of the command in
    /// focus, for the host to open; `None` where no command is in focus.
    pub fn open_perplexity_search(&self) -> (url: Option<String>)
        ensures
            url.deep_view() == self@.search_target(),
    {
        match &self.selected_command {
            Some(name) => Some(search_url(name.as_str())),
            None => None,
        }
    }

    /// Replaces the history by what the store holds: `stored` is its text,
    /// or `None` where the store has no entry.
    pub fn load_search_history(&mut self, stored: Option<&str>)
        ensures
            final(self)@ == old(self)@.after_load(text_view(stored)),
    {
        let (command_history, failed) = load_history(stored);
        self.command_history = command_history;
        self.history_error = if failed {
            Some(HistoryError::Malformed)
        } else {
            None
        };
    }

    /// What is to be done to the store to persist the history.
    pub fn save_search_history(&self) -> (action: StoreAction)
        ensures
            action@ == persist_action(self@.command_history),
    {
        save_history(&self.command_history)
    }

    /// Takes in whether the host could do to the store what it was asked:
    /// a failure is noted, a success clears the note.
    pub fn record_store_outcome(&mut self, done: bool)
        ensures
            final(self)@ == old(self)@.after_store_outcome(done),
    {
        self.history_error = if done {
            None
        } else {
            Some(HistoryError::Unwritable)
        };
    }
    /// The catalog.
    pub fn commands(&self) -> (names: &Vec<String>)
        ensures
            names.deep_view() == self@.commands,
    {
        &self.commands
    }

    /// The names on show.
    pub fn filtered_commands(&self) -> (names: &Vec<String>)
        ensures
            names.deep_view() == self@.filtered_commands,
    {
        &self.filtered_commands
    }

    /// The name in focus, if any.
    pub fn selected_command(&self) -> (name: &Option<String>)
        ensures
            name.deep_view() == self@.selected_command,
    {
        &self.selected_command
    }

    /// The manual page on show.
    pub fn manpage(&self) -> (page: &ManpageResult)
        ensures
            page@ == self@.manpage,
    {
        &self.manpage
    }

    /// The filter query.
    pub fn search_query(&self) -> (query: &str)
        ensures
            query@ == self@.search_query,
    {
        self.search_query.as_str()
    }

    /// The query that the manual text is projected by.
    pub fn manpage_search_query(&self) -> (query: &str)
        ensures
            query@ == self@.manpage_search_query,
    {
        self.manpage_search_query.as_str()
    }

    /// The commands whose manual text was shown, oldest first.
    pub fn command_history(&self) -> (names: &Vec<String>)
        ensures
            names.deep_view() == self@.command_history,
    {
        &self.command_history
    }

    /// The last failure of loading or storing the history, if any.
    pub fn history_error(&self) -> (failure: Option<HistoryError>)
        ensures
            failure == self@.history_error,
    {
        self.history_error
    }
}

} // verus!
