use cli_organizer::filter::filter_names;
use cli_organizer::text::{byte_len, contains_text};

fn names(list: &[&str]) -> Vec<String> {
    list.iter().map(|name| name.to_string()).collect()
}

#[test]
fn query_keeps_matching_names_by_length() {
    let catalog = names(&["ls", "cat", "lsblk", "cp"]);
    assert_eq!(filter_names(&catalog, "ls"), names(&["ls", "lsblk"]));
}

#[test]
fn longer_match_before_shorter_is_moved_behind() {
    let catalog = names(&["lsblk", "cat", "ls", "lsof"]);
    assert_eq!(filter_names(&catalog, "ls"), names(&["ls", "lsof", "lsblk"]));
}

#[test]
fn names_of_equal_length_keep_catalog_order() {
    let catalog = names(&["xcc", "xa", "xbb", "xaa", "xb", "y"]);
    assert_eq!(filter_names(&catalog, "x"), names(&["xa", "xb", "xcc", "xbb", "xaa"]));
}

#[test]
fn empty_query_shows_catalog_in_its_own_order() {
    let catalog = names(&["lsblk", "ls", "cat", "a"]);
    assert_eq!(filter_names(&catalog, ""), catalog);
}

#[test]
fn query_without_match_shows_nothing() {
    let catalog = names(&["ls", "cat"]);
    assert_eq!(filter_names(&catalog, "zip"), Vec::<String>::new());
}

#[test]
fn empty_catalog_shows_nothing() {
    assert_eq!(filter_names(&Vec::new(), "ls"), Vec::<String>::new());
    assert_eq!(filter_names(&Vec::new(), ""), Vec::<String>::new());
}

#[test]
fn matching_is_case_sensitive() {
    let catalog = names(&["LS", "ls", "Ls"]);
    assert_eq!(filter_names(&catalog, "ls"), names(&["ls"]));
    assert_eq!(filter_names(&catalog, "L"), names(&["LS", "Ls"]));
}

#[test]
fn duplicate_names_are_kept() {
    let catalog = names(&["ls", "lsblk", "ls"]);
    assert_eq!(filter_names(&catalog, "ls"), names(&["ls", "ls", "lsblk"]));
    assert_eq!(filter_names(&catalog, ""), catalog);
}

#[test]
fn every_shown_name_contains_the_query() {
    let catalog = names(&["grep", "egrep", "fgrep", "gzip", "rg", "agrep-x", "gre"]);
    let shown = filter_names(&catalog, "grep");
    assert_eq!(shown.len(), 4);
    for name in &shown {
        assert!(name.contains("grep"));
    }
    for pair in shown.windows(2) {
        assert!(pair[0].len() <= pair[1].len());
    }
}

#[test]
fn length_is_counted_in_bytes() {
    let catalog = names(&["näh", "nah", "na"]);
    assert_eq!(filter_names(&catalog, "n"), names(&["na", "nah", "näh"]));
    assert_eq!(byte_len("näh"), 4);
    assert_eq!(byte_len(""), 0);
    assert_eq!(byte_len("ls"), 2);
}

#[test]
fn query_of_several_characters_matches_in_the_middle() {
    let catalog = names(&["xargs", "tar", "bsdtar", "arch", "ar"]);
    assert_eq!(filter_names(&catalog, "ar"), names(&["ar", "tar", "arch", "xargs", "bsdtar"]));
}

#[test]
fn containment_of_texts() {
    assert!(contains_text("lsblk", "ls"));
    assert!(contains_text("lsblk", "blk"));
    assert!(contains_text("lsblk", "lsblk"));
    assert!(contains_text("lsblk", ""));
    assert!(contains_text("", ""));
    assert!(!contains_text("ls", "lsblk"));
    assert!(!contains_text("lsblk", "lb"));
    assert!(!contains_text("", "a"));
    assert!(contains_text("aab", "ab"));
    assert!(contains_text("größe", "öß"));
    assert!(!contains_text("grosse", "ß"));
}
