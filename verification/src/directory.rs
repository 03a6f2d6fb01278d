//! A snapshot of the external chat directory.
//!
//! The directory service itself lives outside this crate: whoever calls the
//! core fetches the user and channel listings (or fails to) and hands them
//! in as a `Directory` value, so validation is deterministic and testable.

use crate::text::{lower_of, lowercase};
use vstd::prelude::*;

verus! {

/// Whether some entry of `names` equals `name`, compared case-insensitively.
pub open spec fn spec_name_listed(names: Seq<String>, name: Seq<char>) -> bool {
    exists|i: int| 0 <= i < names.len() && #[trigger] lower_of(names[i]@) == lower_of(name)
}

/// What the directory answered: the names under which users can be addressed
/// (primary and display names of accounts that are neither bots nor deleted)
/// and the names of channels that are not archived.  When the directory
/// could not be reached, `available` is false and every lookup succeeds:
/// reservations are not blocked on an external outage.
pub struct Directory {
    pub available: bool,
    pub users: Vec<String>,
    pub channels: Vec<String>,
}

impl Directory {
    /// What a user lookup answers; fails open when the directory is down.
    pub open spec fn spec_user_exists(&self, name: Seq<char>) -> bool {
        !self.available || spec_name_listed(self.users@, name)
    }

    /// What a channel lookup answers; fails open when the directory is down.
    pub open spec fn spec_channel_exists(&self, name: Seq<char>) -> bool {
        !self.available || spec_name_listed(self.channels@, name)
    }

    /// A directory that could not be reached; every lookup on it succeeds.
    pub fn offline() -> (r: Directory)
        ensures
            !r.available,
    {
        Directory { available: false, users: Vec::new(), channels: Vec::new() }
    }

    /// Whether `name` matches a listed user name, case-insensitively;
    /// true whenever the directory is unreachable.
    pub fn user_exists(&self, name: &str) -> (r: bool)
        ensures
            r == self.spec_user_exists(name@),
    {
        !self.available || name_listed(&self.users, name)
    }

    /// Whether `name` matches a listed channel name, case-insensitively;
    /// true whenever the directory is unreachable.
    pub fn channel_exists(&self, name: &str) -> (r: bool)
        ensures
            r == self.spec_channel_exists(name@),
    {
        !self.available || name_listed(&self.channels, name)
    }
}

/// Case-insensitive membership of `name` in `names`.
fn name_listed(names: &Vec<String>, name: &str) -> (r: bool)
    ensures
        r == spec_name_listed(names@, name@),
{
    let target = lowercase(name);
    let n = names.len();
    let mut i: usize = 0;
    while i < n
        invariant
            n == names@.len(),
            i <= n,
            target@ == lower_of(name@),
            forall|j: int| 0 <= j < i ==> #[trigger] lower_of(names@[j]@) != lower_of(name@),
        decreases n - i,
    {
        let candidate = lowercase(names[i].as_str());
        if candidate == target {
            return true;
        }
        i += 1;
    }
    false
}

} // verus!
