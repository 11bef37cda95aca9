use cli_organizer::search::search_url;

#[test]
fn search_address_for_a_plain_name() {
    assert_eq!(
        search_url("ls"),
        "https://www.perplexity.ai/search?q=ls%20show%20me%20example%20usages%20for%20this%20command"
    );
}

#[test]
fn search_address_encodes_what_is_not_unreserved() {
    assert_eq!(
        search_url("a-b_c.d~e/f"),
        "https://www.perplexity.ai/search?q=a-b_c.d~e%2Ff%20show%20me%20example%20usages%20for%20this%20command"
    );
    assert_eq!(
        search_url("é"),
        "https://www.perplexity.ai/search?q=%C3%A9%20show%20me%20example%20usages%20for%20this%20command"
    );
}
