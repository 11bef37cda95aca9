use cli_organizer::catalog::{get_cli_commands, read_listing, CatalogError, CatalogPolicy};

fn names(list: &[&str]) -> Vec<String> {
    list.iter().map(|name| name.to_string()).collect()
}

#[test]
fn raw_policy_takes_every_line_that_is_not_empty() {
    let listing = "ls\n[\n-x\n\na\nls\nmy.tool\n";
    assert_eq!(
        read_listing(listing, &CatalogPolicy::raw()),
        names(&["ls", "[", "-x", "a", "ls", "my.tool"])
    );
}

#[test]
fn filtered_policy_leaves_out_odd_names() {
    let listing = "ls\n[\n-x\n\na\nls\nmy.tool\nx-y_z9\nif\n{\ngrüße\nA1\n--help\ncd-\n";
    assert_eq!(
        read_listing(listing, &CatalogPolicy::filtered()),
        names(&["ls", "ls", "x-y_z9", "if", "A1", "cd-"])
    );
}

#[test]
fn policies_are_what_they_say() {
    assert_eq!(CatalogPolicy::raw(), CatalogPolicy { min_length: 0, plain_names_only: false });
    assert_eq!(CatalogPolicy::filtered(), CatalogPolicy { min_length: 2, plain_names_only: true });
}

#[test]
fn policy_admits_by_length_and_characters() {
    let policy = CatalogPolicy { min_length: 3, plain_names_only: false };
    assert!(policy.admits_name(&"a.b".chars().collect()));
    assert!(!policy.admits_name(&"ab".chars().collect()));
    assert!(!policy.admits_name(&Vec::new()));
    let policy = CatalogPolicy { min_length: 0, plain_names_only: true };
    assert!(policy.admits_name(&"a".chars().collect()));
    assert!(policy.admits_name(&"_".chars().collect()));
    assert!(policy.admits_name(&"a-Z_09".chars().collect()));
    assert!(!policy.admits_name(&"-a".chars().collect()));
    assert!(!policy.admits_name(&"a b".chars().collect()));
    assert!(!policy.admits_name(&"a/b".chars().collect()));
    assert!(!policy.admits_name(&"a{".chars().collect()));
    assert!(!policy.admits_name(&"a`".chars().collect()));
    assert!(!policy.admits_name(&"a@".chars().collect()));
    assert!(!policy.admits_name(&"a[".chars().collect()));
    assert!(!policy.admits_name(&"a:".chars().collect()));
    assert!(!policy.admits_name(&"é".chars().collect()));
    assert!(!policy.admits_name(&Vec::new()));
}

#[test]
fn minimum_length_counts_characters() {
    let policy = CatalogPolicy { min_length: 2, plain_names_only: false };
    assert_eq!(read_listing("é\néé\nab\n", &policy), names(&["éé", "ab"]));
}

#[test]
fn listing_with_other_line_endings() {
    assert_eq!(read_listing("ls\r\ncat\r\n", &CatalogPolicy::filtered()), names(&["ls", "cat"]));
    assert_eq!(read_listing("ls\ncat", &CatalogPolicy::filtered()), names(&["ls", "cat"]));
    assert_eq!(read_listing("", &CatalogPolicy::raw()), Vec::<String>::new());
    assert_eq!(read_listing("\n\n", &CatalogPolicy::raw()), Vec::<String>::new());
}

#[test]
fn failed_enumeration_gives_no_catalog() {
    assert_eq!(
        get_cli_commands(false, b"ls\ncat\n", &CatalogPolicy::raw()),
        Err(CatalogError::EnumerationFailed)
    );
}

#[test]
fn enumeration_output_is_decoded_and_read() {
    assert_eq!(
        get_cli_commands(true, b"ls\ncat\n:\n", &CatalogPolicy::filtered()),
        Ok(names(&["ls", "cat"]))
    );
    assert_eq!(
        get_cli_commands(true, b"l\xffs\ncat\n", &CatalogPolicy::raw()),
        Ok(names(&["l\u{fffd}s", "cat"]))
    );
    assert_eq!(get_cli_commands(true, b"", &CatalogPolicy::raw()), Ok(Vec::new()));
}
