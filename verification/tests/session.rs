use cli_organizer::history::{HistoryError, StoreAction};
use cli_organizer::manpage::ManpageResult;
use cli_organizer::session::MyApp;

fn names(list: &[&str]) -> Vec<String> {
    list.iter().map(|name| name.to_string()).collect()
}

fn text(page: &str) -> ManpageResult {
    ManpageResult::Available(page.to_string())
}

#[test]
fn new_session_shows_the_whole_catalog() {
    let app = MyApp::new(names(&["lsblk", "ls", "cat"]), None);
    assert_eq!(app.commands(), &names(&["lsblk", "ls", "cat"]));
    assert_eq!(app.filtered_commands(), &names(&["lsblk", "ls", "cat"]));
    assert_eq!(app.selected_command(), &None);
    assert_eq!(app.manpage(), &ManpageResult::Empty);
    assert_eq!(app.search_query(), "");
    assert_eq!(app.manpage_search_query(), "");
    assert!(app.command_history().is_empty());
    assert_eq!(app.history_error(), None);
}

#[test]
fn filtering_selects_the_first_name_and_records_its_page() {
    let mut app = MyApp::new(names(&["ls", "cat", "lsblk", "cp"]), None);
    let fetch = app.set_filter_query("ls".to_string());
    assert_eq!(app.filtered_commands(), &names(&["ls", "lsblk"]));
    assert_eq!(app.selected_command(), &Some("ls".to_string()));
    assert_eq!(fetch, Some("ls".to_string()));
    let action = app.update_manpage("ls", text("LS(1)..."));
    assert_eq!(app.manpage(), &text("LS(1)..."));
    assert_eq!(app.command_history(), &names(&["ls"]));
    assert_eq!(action, StoreAction::Write("[\"ls\"]".to_string()));
}

#[test]
fn failed_fetch_leaves_the_history_unchanged() {
    let mut app = MyApp::new(names(&["ls", "doesnotexist123"]), Some("[\"ls\"]"));
    assert_eq!(app.select_command("doesnotexist123"), Some("doesnotexist123".to_string()));
    let failure = ManpageResult::FetchError("No manual entry for doesnotexist123".to_string());
    let action = app.update_manpage("doesnotexist123", failure.clone());
    assert_eq!(app.manpage(), &failure);
    assert_eq!(app.command_history(), &names(&["ls"]));
    assert_eq!(action, StoreAction::Nothing);
}

#[test]
fn filter_without_match_clears_focus_and_page() {
    let mut app = MyApp::new(names(&["ls", "cat"]), None);
    assert_eq!(app.set_filter_query("ls".to_string()), Some("ls".to_string()));
    app.update_manpage("ls", text("LS(1)"));
    let fetch = app.set_filter_query("zip".to_string());
    assert_eq!(fetch, None);
    assert!(app.filtered_commands().is_empty());
    assert_eq!(app.selected_command(), &None);
    assert_eq!(app.manpage(), &ManpageResult::Empty);
    assert_eq!(app.search_query(), "zip");
    assert_eq!(app.command_history(), &names(&["ls"]));
}

#[test]
fn emptying_the_query_shows_the_catalog_again() {
    let mut app = MyApp::new(names(&["lsblk", "cat", "ls"]), None);
    app.set_filter_query("ls".to_string());
    assert_eq!(app.filtered_commands(), &names(&["ls", "lsblk"]));
    let fetch = app.set_filter_query(String::new());
    assert_eq!(app.filtered_commands(), &names(&["lsblk", "cat", "ls"]));
    assert_eq!(fetch, Some("lsblk".to_string()));
    assert_eq!(app.selected_command(), &Some("lsblk".to_string()));
}

#[test]
fn filter_commands_applies_the_current_query() {
    let mut app = MyApp::new(names(&["lsblk", "cat", "ls"]), None);
    assert_eq!(app.filter_commands(), Some("lsblk".to_string()));
    assert_eq!(app.filtered_commands(), &names(&["lsblk", "cat", "ls"]));
    assert_eq!(app.selected_command(), &Some("lsblk".to_string()));
}

#[test]
fn explicit_selection_needs_a_name_on_show() {
    let mut app = MyApp::new(names(&["ls", "cat", "lsblk"]), None);
    app.set_filter_query("ls".to_string());
    assert_eq!(app.select_command("cat"), None);
    assert_eq!(app.selected_command(), &Some("ls".to_string()));
    assert_eq!(app.select_command("lsblk"), Some("lsblk".to_string()));
    assert_eq!(app.selected_command(), &Some("lsblk".to_string()));
    assert_eq!(app.select_command("nothing"), None);
    assert_eq!(app.selected_command(), &Some("lsblk".to_string()));
}

#[test]
fn next_moves_forward_and_stops_at_the_last_name() {
    let mut app = MyApp::new(names(&["a", "b", "c"]), None);
    assert_eq!(app.select_next(), Some("a".to_string()));
    assert_eq!(app.select_next(), Some("b".to_string()));
    assert_eq!(app.select_next(), Some("c".to_string()));
    assert_eq!(app.selected_command(), &Some("c".to_string()));
    assert_eq!(app.select_next(), None);
    assert_eq!(app.selected_command(), &Some("c".to_string()));
    assert_eq!(app.select_next(), None);
    assert_eq!(app.selected_command(), &Some("c".to_string()));
}

#[test]
fn previous_moves_back_and_stops_at_the_first_name() {
    let mut app = MyApp::new(names(&["a", "b", "c"]), None);
    assert_eq!(app.select_previous(), Some("c".to_string()));
    assert_eq!(app.select_previous(), Some("b".to_string()));
    assert_eq!(app.select_previous(), Some("a".to_string()));
    assert_eq!(app.select_previous(), None);
    assert_eq!(app.selected_command(), &Some("a".to_string()));
    assert_eq!(app.select_previous(), None);
    assert_eq!(app.selected_command(), &Some("a".to_string()));
}

#[test]
fn steps_on_an_empty_view_do_nothing() {
    let mut app = MyApp::new(Vec::new(), None);
    assert_eq!(app.select_next(), None);
    assert_eq!(app.select_previous(), None);
    assert_eq!(app.selected_command(), &None);
    let mut app = MyApp::new(names(&["ls"]), None);
    app.set_filter_query("zip".to_string());
    assert_eq!(app.select_next(), None);
    assert_eq!(app.select_previous(), None);
    assert_eq!(app.selected_command(), &None);
}

#[test]
fn focus_stays_on_show_through_any_steps() {
    let mut app = MyApp::new(names(&["tar", "ar", "xargs", "cat", "bsdtar"]), None);
    app.set_filter_query("ar".to_string());
    for step in 0..12 {
        if step % 3 == 2 {
            app.select_previous();
        } else {
            app.select_next();
        }
        let focus = app.selected_command().clone().unwrap();
        assert!(app.filtered_commands().contains(&focus));
    }
    assert_eq!(app.selected_command(), &Some("xargs".to_string()));
}

#[test]
fn focus_is_taken_by_its_first_occurrence() {
    let mut app = MyApp::new(names(&["ls", "cp", "ls"]), None);
    assert_eq!(app.select_previous(), Some("ls".to_string()));
    assert_eq!(app.select_next(), Some("cp".to_string()));
    assert_eq!(app.select_next(), Some("ls".to_string()));
    assert_eq!(app.select_next(), Some("cp".to_string()));
}

#[test]
fn manual_text_enters_the_history_once() {
    let mut app = MyApp::new(names(&["ls", "cat"]), None);
    app.select_command("ls");
    assert_eq!(
        app.update_manpage("ls", text("LS(1)")),
        StoreAction::Write("[\"ls\"]".to_string())
    );
    app.select_command("cat");
    assert_eq!(
        app.update_manpage("cat", text("CAT(1)")),
        StoreAction::Write("[\"ls\",\"cat\"]".to_string())
    );
    app.select_command("ls");
    assert_eq!(app.update_manpage("ls", text("LS(1) again")), StoreAction::Nothing);
    assert_eq!(app.command_history(), &names(&["ls", "cat"]));
    assert_eq!(app.manpage(), &text("LS(1) again"));
}

#[test]
fn page_without_text_stays_out_of_the_history() {
    let mut app = MyApp::new(names(&["ls"]), None);
    app.select_command("ls");
    assert_eq!(app.update_manpage("ls", ManpageResult::Empty), StoreAction::Nothing);
    assert_eq!(app.manpage(), &ManpageResult::Empty);
    assert!(app.command_history().is_empty());
    assert_eq!(app.update_manpage("ls", text("")), StoreAction::Nothing);
    assert_eq!(app.manpage(), &ManpageResult::Empty);
    assert!(app.command_history().is_empty());
}

#[test]
fn result_for_a_command_out_of_focus_is_dropped() {
    let mut app = MyApp::new(names(&["ls", "cat"]), None);
    assert_eq!(app.update_manpage("ls", text("LS(1)")), StoreAction::Nothing);
    assert_eq!(app.manpage(), &ManpageResult::Empty);
    app.select_command("ls");
    app.select_command("cat");
    assert_eq!(app.update_manpage("ls", text("LS(1)")), StoreAction::Nothing);
    assert_eq!(app.manpage(), &ManpageResult::Empty);
    assert!(app.command_history().is_empty());
    assert_eq!(
        app.update_manpage("cat", text("CAT(1)")),
        StoreAction::Write("[\"cat\"]".to_string())
    );
}

#[test]
fn history_entry_is_added_unless_present() {
    let mut app = MyApp::new(Vec::new(), Some("[\"ls\"]"));
    assert_eq!(app.add_to_search_history("ls".to_string()), StoreAction::Nothing);
    assert_eq!(
        app.add_to_search_history("cat".to_string()),
        StoreAction::Write("[\"ls\",\"cat\"]".to_string())
    );
    assert_eq!(app.add_to_search_history("cat".to_string()), StoreAction::Nothing);
    assert_eq!(app.command_history(), &names(&["ls", "cat"]));
}

#[test]
fn choice_from_history_resets_the_filter() {
    let mut app = MyApp::new(names(&["lsblk", "cat", "ls"]), Some("[\"cat\",\"gone\"]"));
    app.set_filter_query("ls".to_string());
    assert_eq!(app.select_from_history("cat"), Some("cat".to_string()));
    assert_eq!(app.search_query(), "");
    assert_eq!(app.filtered_commands(), &names(&["lsblk", "cat", "ls"]));
    assert_eq!(app.selected_command(), &Some("cat".to_string()));
}

#[test]
fn choice_outside_the_history_changes_nothing() {
    let mut app = MyApp::new(names(&["lsblk", "cat", "ls"]), Some("[\"cat\"]"));
    app.set_filter_query("ls".to_string());
    assert_eq!(app.select_from_history("lsblk"), None);
    assert_eq!(app.search_query(), "ls");
    assert_eq!(app.filtered_commands(), &names(&["ls", "lsblk"]));
    assert_eq!(app.selected_command(), &Some("ls".to_string()));
}

#[test]
fn choice_of_a_command_that_left_the_catalog_keeps_the_focus() {
    let mut app = MyApp::new(names(&["lsblk", "cat", "ls"]), Some("[\"gone\"]"));
    app.set_filter_query("ls".to_string());
    assert_eq!(app.select_from_history("gone"), None);
    assert_eq!(app.search_query(), "");
    assert_eq!(app.filtered_commands(), &names(&["lsblk", "cat", "ls"]));
    assert_eq!(app.selected_command(), &Some("ls".to_string()));
}

#[test]
fn cleared_history_is_empty_after_restart() {
    let mut app = MyApp::new(names(&["ls"]), Some("[\"ls\",\"cat\"]"));
    assert_eq!(app.command_history(), &names(&["ls", "cat"]));
    let action = app.clear_history();
    assert_eq!(action, StoreAction::Remove);
    assert!(app.command_history().is_empty());
    let mut store: Option<String> = Some("[\"ls\",\"cat\"]".to_string());
    match action {
        StoreAction::Nothing => {}
        StoreAction::Write(written) => store = Some(written),
        StoreAction::Remove => store = None,
    }
    let restarted = MyApp::new(names(&["ls"]), store.as_deref());
    assert!(restarted.command_history().is_empty());
    assert_eq!(restarted.history_error(), None);
}

#[test]
fn written_history_is_read_back_after_restart() {
    let mut app = MyApp::new(names(&["ls", "a\"b"]), None);
    app.select_command("ls");
    app.update_manpage("ls", text("LS(1)"));
    app.select_command("a\"b");
    let action = app.update_manpage("a\"b", text("odd"));
    let written = match action {
        StoreAction::Write(written) => written,
        _ => panic!("the history was not written"),
    };
    assert_eq!(written, "[\"ls\",\"a\\\"b\"]");
    assert_eq!(app.save_search_history(), StoreAction::Write(written.clone()));
    let restarted = MyApp::new(Vec::new(), Some(&written));
    assert_eq!(restarted.command_history(), &names(&["ls", "a\"b"]));
}

#[test]
fn missing_store_gives_an_empty_history() {
    let app = MyApp::new(names(&["ls"]), None);
    assert!(app.command_history().is_empty());
    assert_eq!(app.history_error(), None);
}

#[test]
fn malformed_store_gives_an_empty_history_and_a_report() {
    let app = MyApp::new(names(&["ls"]), Some("{\"not\": \"a list\"}"));
    assert!(app.command_history().is_empty());
    assert_eq!(app.history_error(), Some(HistoryError::Malformed));
    let app = MyApp::new(names(&["ls"]), Some("[\"ls\", 3]"));
    assert!(app.command_history().is_empty());
    assert_eq!(app.history_error(), Some(HistoryError::Malformed));
    let app = MyApp::new(names(&["ls"]), Some(""));
    assert!(app.command_history().is_empty());
    assert_eq!(app.history_error(), Some(HistoryError::Malformed));
}

#[test]
fn history_can_be_loaded_again() {
    let mut app = MyApp::new(names(&["ls"]), Some("oops"));
    assert_eq!(app.history_error(), Some(HistoryError::Malformed));
    app.load_search_history(Some("[\"cat\"]"));
    assert_eq!(app.command_history(), &names(&["cat"]));
    assert_eq!(app.history_error(), None);
    app.load_search_history(None);
    assert!(app.command_history().is_empty());
    assert_eq!(app.history_error(), None);
}

#[test]
fn store_outcome_is_kept_as_state() {
    let mut app = MyApp::new(names(&["ls"]), None);
    app.record_store_outcome(false);
    assert_eq!(app.history_error(), Some(HistoryError::Unwritable));
    app.record_store_outcome(true);
    assert_eq!(app.history_error(), None);
}

#[test]
fn manual_text_is_projected_by_the_search_query() {
    let mut app = MyApp::new(names(&["ls"]), None);
    app.select_command("ls");
    app.update_manpage("ls", text("NAME\n  ls - list\r\nOPTIONS\n  -l long list\n"));
    assert_eq!(app.filter_manpage(), "NAME\n  ls - list\r\nOPTIONS\n  -l long list\n");
    app.set_manpage_search_query("list".to_string());
    assert_eq!(app.manpage_search_query(), "list");
    assert_eq!(app.filter_manpage(), "  ls - list\n  -l long list");
    assert_eq!(app.manpage(), &text("NAME\n  ls - list\r\nOPTIONS\n  -l long list\n"));
    app.set_manpage_search_query("zip".to_string());
    assert_eq!(app.filter_manpage(), "");
}

#[test]
fn page_that_is_no_text_projects_to_nothing() {
    let mut app = MyApp::new(names(&["ls"]), None);
    assert_eq!(app.filter_manpage(), "");
    app.select_command("ls");
    app.update_manpage("ls", ManpageResult::FetchError("failed".to_string()));
    assert_eq!(app.filter_manpage(), "");
    app.set_manpage_search_query("fail".to_string());
    assert_eq!(app.filter_manpage(), "");
}

#[test]
fn search_address_is_made_for_the_command_in_focus() {
    let mut app = MyApp::new(names(&["ls", "g++"]), None);
    assert_eq!(app.open_perplexity_search(), None);
    app.select_command("g++");
    assert_eq!(
        app.open_perplexity_search(),
        Some(
            "https://www.perplexity.ai/search?q=g%2B%2B%20show%20me%20example%20usages%20for%20this%20command"
                .to_string()
        )
    );
}
