//! The command catalog: the names that the host's command enumeration
//! lists, under an explicit admission policy.

use vstd::prelude::*;
use vstd::utf8::{encode_utf8, valid_utf8};
use crate::text::{chars_of, decode_lossy, lines_of, lossy_text, split_lines, string_from_chars};

verus! {

/// Which lines of the host's listing become names of the catalog. An empty
/// line never does.
#[derive(Clone, Copy, Debug, PartialEq, Eq)]
pub struct CatalogPolicy {
    /// Names of fewer characters than this are left out.
    pub min_length: usize,
    /// Leave out names with a character outside `[A-Za-z0-9_-]` and names
    /// that begin with `-`.
    pub plain_names_only: bool,
}

/// A character of the class `[A-Za-z0-9_-]`.
pub open spec fn is_name_char(c: char) -> bool {
    ||| 'a' <= c <= 'z'
    ||| 'A' <= c <= 'Z'
    ||| '0' <= c <= '9'
    ||| c == '_'
    ||| c == '-'
}

/// A name made of characters of the class only that does not begin with
/// `-`.
pub open spec fn is_plain_name(name: Seq<char>) -> bool {
    &&& forall|k: int| 0 <= k < name.len() ==> is_name_char(#[trigger] name[k])
    &&& name.len() > 0 ==> name[0] != '-'
}

impl CatalogPolicy {
    /// The policy admits `name`.
    pub open spec fn admits(self, name: Seq<char>) -> bool {
        &&& name.len() > 0
        &&& name.len() >= self.min_length
        &&& self.plain_names_only ==> is_plain_name(name)
    }

    /// Every non-empty line is a name.
    pub fn raw() -> (policy: CatalogPolicy)
        ensures
            policy.min_length == 0,
            !policy.plain_names_only,
    {
        CatalogPolicy { min_length: 0, plain_names_only: false }
    }

    /// Names of one character, names with a character outside
    /// `[A-Za-z0-9_-]` and names that begin with `-` are left out.
    pub fn filtered() -> (policy: CatalogPolicy)
        ensures
            policy.min_length == 2,
            policy.plain_names_only,
    {
        CatalogPolicy { min_length: 2, plain_names_only: true }
    }

    /// Tests whether the policy admits `name`.
    pub fn admits_name(&self, name: &Vec<char>) -> (b: bool)
        ensures
            b == self.admits(name@),
    {
        if name.len() == 0 || name.len() < self.min_length {
            return false;
        }
        if !self.plain_names_only {
            return true;
        }
        if name[0] == '-' {
            return false;
        }
        let mut k: usize = 0;
        while k < name.len()
            invariant
                k <= name.len(),
                self.plain_names_only,
                name.len() >= self.min_length,
                name@[0] != '-',
                forall|j: int| 0 <= j < k ==> is_name_char(#[trigger] name@[j]),
            decreases name.len() - k,
        {
            let c = name[k];
            let in_class = ('a' <= c && c <= 'z') || ('A' <= c && c <= 'Z') || ('0' <= c && c
                <= '9') || c == '_' || c == '-';
            if !in_class {
                assert(!is_name_char(name@[k as int]));
                return false;
            }
            k += 1;
        }
        true
    }
}

/// The lines that `policy` admits, in their order.
pub open spec fn admitted(lines: Seq<Seq<char>>, policy: CatalogPolicy) -> Seq<Seq<char>>
    decreases lines.len(),
{
    if lines.len() == 0 {
        Seq::empty()
    } else if policy.admits(lines.last()) {
        admitted(lines.drop_last(), policy).push(lines.last())
    } else {
        admitted(lines.drop_last(), policy)
    }
}

/// The catalog that a listing yields: its lines that `policy` admits, in
/// their order and as often as they occur.
pub open spec fn catalog_of(listing: Seq<char>, policy: CatalogPolicy) -> Seq<Seq<char>> {
    admitted(split_lines(listing), policy)
}

/// Why a session cannot start.
#[derive(Clone, Copy, Debug, PartialEq, Eq)]
pub enum CatalogError {
    /// The host's command enumeration did not run to a good end.
    EnumerationFailed,
}

/// Reads the catalog from the text that the host's command enumeration
/// wrote.
pub fn read_listing(listing: &str, policy: &CatalogPolicy) -> (commands: Vec<String>)
    ensures
        commands.deep_view() == catalog_of(listing@, *policy),
{
    let letters = chars_of(listing);
    let lines = lines_of(&letters);
    let ghost all = lines.deep_view();
    let mut commands: Vec<String> = Vec::new();
    let mut i: usize = 0;
    assert(commands.deep_view() =~= Seq::empty());
    while i < lines.len()
        invariant
            i <= lines.len(),
            all == lines.deep_view(),
            commands.deep_view() == admitted(all.take(i as int), *policy),
        decreases lines.len() - i,
    {
        let line = &lines[i];
        proof {
            assert(all.take(i + 1).drop_last() =~= all.take(i as int));
            assert(line.deep_view() =~= line@);
            assert(all.take(i + 1).last() == line@);
        }
        if policy.admits_name(line) {
            let ghost before = commands.deep_view();
            commands.push(string_from_chars(line));
            assert(commands.deep_view() =~= before.push(line@));
        }
        i += 1;
    }
    assert(all.take(i as int) =~= all);
    commands
}

/// Reads the catalog from one run of the host's command enumeration.
/// `success` tells whether it exited with status zero, `listing` is what
/// it wrote to standard output, decoded permissively. A run that failed
/// yields no catalog.
pub fn get_cli_commands(success: bool, listing: &[u8], policy: &CatalogPolicy) -> (commands: Result<
    Vec<String>,
    CatalogError,
>)
    ensures
        success ==> (commands matches Ok(names) && names.deep_view() == catalog_of(
            lossy_text(listing@),
            *policy,
        )),
        !success ==> commands == Err::<Vec<String>, CatalogError>(CatalogError::EnumerationFailed),
        success && valid_utf8(listing@) ==> encode_utf8(lossy_text(listing@)) == listing@,
{
    if !success {
        return Err(CatalogError::EnumerationFailed);
    }
    let text = decode_lossy(listing);
    Ok(read_listing(text.as_str(), policy))
}

} // verus!
