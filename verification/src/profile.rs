//! Choosing a profile directory from an optional URL and a domain list.

use vstd::prelude::*;

verus! {

use vstd::string::StringExecFns;

/// The two profile directories the launcher knows about: the one used when
/// the requested URL appears in the domain list, and the fallback.
#[derive(Clone, Copy, Debug, PartialEq, Eq, Structural)]
pub enum Profile {
    Matched,
    Default,
}

impl Profile {
    /// The literal directory name handed to the browser for this profile.
    pub open spec fn spec_dir_name(self) -> Seq<char> {
        match self {
            Profile::Matched => "Profile 2"@,
            Profile::Default => "Default"@,
        }
    }

    pub fn dir_name(&self) -> (r: String)
        ensures
            r@ == self.spec_dir_name(),
    {
        match self {
            Profile::Matched => String::from_str("Profile 2"),
            Profile::Default => String::from_str("Default"),
        }
    }
}

/// The character sequences of a list of strings, in order.
pub open spec fn lines_view(lines: Seq<String>) -> Seq<Seq<char>> {
    lines.map_values(|line: String| line@)
}

/// The character sequence of an optional string.
pub open spec fn url_view(url: Option<String>) -> Option<Seq<char>> {
    match url {
        Some(u) => Some(u@),
        None => None,
    }
}

/// Whether `url` appears verbatim as one of the lines of the domain list.
pub open spec fn in_domain_list(domains: Seq<Seq<char>>, url: Seq<char>) -> bool {
    exists|i: int| 0 <= i < domains.len() && domains[i] == url
}

/// The profile the selector owes: the matched profile exactly when a URL was
/// supplied and appears verbatim in the domain list, the default otherwise.
pub open spec fn chosen_profile(url: Option<Seq<char>>, domains: Seq<Seq<char>>) -> Profile {
    match url {
        Some(u) => if in_domain_list(domains, u) {
            Profile::Matched
        } else {
            Profile::Default
        },
        None => Profile::Default,
    }
}

/// Exact-match membership test of `url` among the lines of `domains`.
pub fn contains_line(domains: &Vec<String>, url: &String) -> (r: bool)
    ensures
        r == in_domain_list(lines_view(domains@), url@),
{
    let mut i: usize = 0;
    while i < domains.len()
        invariant
            i <= domains@.len(),
            forall|j: int| 0 <= j < i ==> domains@[j]@ != url@,
        decreases domains@.len() - i,
    {
        if domains[i].eq(url) {
            assert(lines_view(domains@)[i as int] == url@);
            return true;
        }
        i += 1;
    }
    assert(forall|j: int| 0 <= j < domains@.len() ==> lines_view(domains@)[j] != url@);
    false
}

/// Picks the profile directory for an optional URL against the domain list.
pub fn select_profile(url: &Option<String>, domains: &Vec<String>) -> (p: Profile)
    ensures
        p == chosen_profile(url_view(*url), lines_view(domains@)),
{
    match url {
        Some(u) => {
            if contains_line(domains, u) {
                Profile::Matched
            } else {
                Profile::Default
            }
        },
        None => Profile::Default,
    }
}

/// A URL equal to some line of the domain list always selects the matched
/// profile.
pub proof fn lemma_listed_url_selects_matched(url: Seq<char>, domains: Seq<Seq<char>>, i: int)
    requires
        0 <= i < domains.len(),
        domains[i] == url,
    ensures
        chosen_profile(Some(url), domains) == Profile::Matched,
{
    assert(in_domain_list(domains, url)) by {
        assert(0 <= i < domains.len() && domains[i] == url);
    }
}

/// A URL equal to no line of the domain list always selects the default
/// profile.
pub proof fn lemma_unlisted_url_selects_default(url: Seq<char>, domains: Seq<Seq<char>>)
    requires
        forall|i: int| 0 <= i < domains.len() ==> domains[i] != url,
    ensures
        chosen_profile(Some(url), domains) == Profile::Default,
{
}

/// Without a URL the default profile is selected, whatever the domain list
/// holds.
pub proof fn lemma_no_url_selects_default(domains: Seq<Seq<char>>)
    ensures
        chosen_profile(None, domains) == Profile::Default,
{
}

} // verus!
