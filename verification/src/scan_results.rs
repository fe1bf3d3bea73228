//! The scan results that the tasks share, and the list of networks in the window.
use crate::scan_report::AccessPoint;
#[allow(unused_imports)]
use crate::scan_report::ssids;
#[allow(unused_imports)]
use crate::text::texts;
use vstd::prelude::*;

verus! {

/// What the scan task and the window share: the access points found last, and whether the
/// window has yet to show them.
#[verifier::ext_equal]
pub struct SharedScan {
    pub results: Seq<AccessPoint>,
    pub updated: bool,
}

/// What the list in the window shows for `results`: the names of the networks, or a line
/// that says that there are none.
pub open spec fn shown_list(results: Seq<AccessPoint>) -> Seq<Seq<char>> {
    if results.len() == 0 {
        seq!["No networks found"@]
    } else {
        ssids(results)
    }
}

/// The shared scan after an attempt to publish `found`; `free` tells whether the results
/// could be locked.
pub open spec fn after_publish(s: SharedScan, found: Seq<AccessPoint>, free: bool) -> SharedScan {
    if free {
        SharedScan { results: found, updated: true }
    } else {
        s
    }
}

/// The shared scan after the window was asked to refresh its list.
pub open spec fn after_refresh(s: SharedScan, free: bool) -> SharedScan {
    SharedScan { results: s.results, updated: s.updated && !free }
}

/// The new list, if the window shows one when asked to refresh.
pub open spec fn refreshed_list(s: SharedScan, free: bool) -> Option<Seq<Seq<char>>> {
    if s.updated && free {
        Some(shown_list(s.results))
    } else {
        None
    }
}

/// What came of a request to refresh the list.
pub enum Refresh {
    /// There is nothing new to show.
    NothingNew,
    /// The results are locked; they stay marked as new.
    Busy,
    /// The list to show from now on.
    Show(Vec<String>),
}

/// Replaces the stored access points by those just found, and marks them as new. To be
/// called with the results locked.
pub fn publish(results: &mut Vec<AccessPoint>, updated: &mut bool, found: Vec<AccessPoint>)
    ensures
        final(results)@ == found@,
        *final(updated),
        (SharedScan { results: final(results)@, updated: *final(updated) }) == after_publish(
            SharedScan { results: old(results)@, updated: *old(updated) },
            found@,
            true,
        ),
{
    *results = found;
    *updated = true;
}

/// The list that an outcome shows.
pub open spec fn list_of(outcome: Refresh) -> Option<Seq<Seq<char>>> {
    match outcome {
        Refresh::Show(list) => Some(texts(list@)),
        _ => None,
    }
}

/// Answers a request to refresh the list. `results` are the stored access points, if they
/// could be locked.
pub fn refresh(updated: &mut bool, results: Option<&Vec<AccessPoint>>) -> (outcome: Refresh)
    ensures
        match outcome {
            Refresh::NothingNew => !*old(updated),
            Refresh::Busy => *old(updated) && results is None,
            Refresh::Show(list) => *old(updated) && results is Some && texts(list@) == shown_list(
                results->Some_0@,
            ),
        },
        *final(updated) == (*old(updated) && results is None),
        results matches Some(stored) ==> {
            let s = SharedScan { results: stored@, updated: *old(updated) };
            &&& *final(updated) == after_refresh(s, true).updated
            &&& list_of(outcome) == refreshed_list(s, true)
        },
        results is None ==> forall|s: SharedScan|
            s.updated == *old(updated) ==> {
                &&& *final(updated) == (#[trigger] after_refresh(s, false)).updated
                &&& list_of(outcome) == refreshed_list(s, false)
            },
{
    if !*updated {
        return Refresh::NothingNew;
    }
    match results {
        None => Refresh::Busy,
        Some(results) => {
            let mut list: Vec<String> = Vec::new();
            let mut i: usize = 0;
            while i < results.len()
                invariant
                    i <= results.len(),
                    list@.len() == i,
                    forall|k: int| 0 <= k < i ==> #[trigger] list@[k]@ == results@[k].ssid@,
                decreases results.len() - i,
            {
                list.push(results[i].ssid.clone());
                i = i + 1;
            }
            if list.len() == 0 {
                list.push("No networks found".to_owned());
            }
            *updated = false;
            assert(texts(list@) =~= shown_list(results@));
            Refresh::Show(list)
        },
    }
}

/// The list in the window before the first scan.
pub fn placeholder_networks() -> (list: Vec<String>)
    ensures
        texts(list@) == seq!["WiFi Scanning..."@, "Please wait"@],
{
    let mut list: Vec<String> = Vec::new();
    list.push("WiFi Scanning...".to_owned());
    list.push("Please wait".to_owned());
    assert(texts(list@) =~= seq!["WiFi Scanning..."@, "Please wait"@]);
    list
}

/// Published names are what the next refresh shows, in the order found.
pub proof fn law_published_names_are_shown(s: SharedScan, found: Seq<AccessPoint>)
    ensures
        refreshed_list(after_publish(s, found, true), true) == Some(shown_list(found)),
        found.len() > 0 ==> refreshed_list(after_publish(s, found, true), true) == Some(
            ssids(found),
        ),
{
}

/// Names are shown once: after a list was shown, there is nothing new until the next
/// publication.
pub proof fn law_names_are_shown_once(s: SharedScan, free: bool)
    requires
        refreshed_list(s, true) is Some,
    ensures
        refreshed_list(after_refresh(s, true), free) is None,
{
}

/// A refresh that finds the results locked loses nothing: the next one that does not shows
/// what this one would have shown.
pub proof fn law_busy_refresh_loses_nothing(s: SharedScan)
    ensures
        after_refresh(s, false) == s,
        refreshed_list(after_refresh(s, false), true) == refreshed_list(s, true),
{
}

/// Of two publications before a refresh, the later one is shown; one that finds the results
/// locked leaves the earlier one in place.
pub proof fn law_latest_publication_wins(
    s: SharedScan,
    first: Seq<AccessPoint>,
    second: Seq<AccessPoint>,
    free: bool,
)
    ensures
        refreshed_list(after_publish(after_publish(s, first, true), second, free), true) == Some(
            shown_list(
                if free {
                    second
                } else {
                    first
                },
            ),
        ),
{
}

/// A list that is shown is never empty.
pub proof fn law_shown_list_is_not_empty(s: SharedScan, free: bool)
    ensures
        refreshed_list(s, free) matches Some(list) ==> list.len() > 0,
{
}

/// A refresh of marked results that can be locked shows one entry for each access point
/// stored, with its name and in the same order; if none is stored, a single line says so.
/// The mark is gone afterwards, and the stored results are untouched.
pub proof fn law_refresh_shows_what_is_stored(s: SharedScan, i: int)
    requires
        s.updated,
    ensures
        refreshed_list(s, true) is Some,
        s.results.len() > 0 ==> refreshed_list(s, true)->Some_0.len() == s.results.len(),
        0 <= i < s.results.len() ==> refreshed_list(s, true)->Some_0[i] == s.results[i].ssid@,
        s.results.len() == 0 ==> refreshed_list(s, true)->Some_0 == seq!["No networks found"@],
        !after_refresh(s, true).updated,
        after_refresh(s, true).results == s.results,
{
}

/// Without a mark, or without the lock, a refresh shows nothing and changes nothing.
pub proof fn law_refresh_without_mark_or_lock_is_idle(s: SharedScan, free: bool)
    requires
        !s.updated || !free,
    ensures
        refreshed_list(s, free) is None,
        after_refresh(s, free).updated == s.updated,
        after_refresh(s, free).results == s.results,
{
}

/// A publication with the lock replaces all stored access points by exactly those found and
/// marks them as new; one without the lock changes nothing.
pub proof fn law_publication_replaces_the_results(s: SharedScan, found: Seq<AccessPoint>)
    ensures
        after_publish(s, found, true).results == found,
        after_publish(s, found, true).updated,
        after_publish(s, found, false).results == s.results,
        after_publish(s, found, false).updated == s.updated,
{
}

/// An outcome shows a list exactly if it carries one, and then that one.
pub proof fn law_outcome_shows_its_list(outcome: Refresh)
    ensures
        outcome matches Refresh::Show(list) ==> list_of(outcome) == Some(texts(list@)),
        !(outcome is Show) ==> list_of(outcome) is None,
{
}

} // verus!
