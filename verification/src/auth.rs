//! Authorization predicates over a sender's role-badge set.
//!
//! A chat message carries a set of badge names; two pure predicates over that
//! set gate the counter commands. Reset-level access belongs to the
//! broadcaster and moderators; edit-level access additionally to VIPs and
//! subscribers.

use vstd::prelude::*;
use crate::text::str_eq;

verus! {

/// The badge set contains a badge with the given name.
pub open spec fn spec_has_badge(badges: Seq<Seq<char>>, name: Seq<char>) -> bool {
    exists|i: int| 0 <= i < badges.len() && badges[i] == name
}

/// Reset-level authorization: broadcaster or moderator.
pub open spec fn spec_allow_reset(badges: Seq<Seq<char>>) -> bool {
    spec_has_badge(badges, "broadcaster"@) || spec_has_badge(badges, "moderator"@)
}

/// Edit-level authorization: reset-level, or VIP or subscriber.
pub open spec fn spec_allow_edit(badges: Seq<Seq<char>>) -> bool {
    spec_allow_reset(badges) || spec_has_badge(badges, "vip"@) || spec_has_badge(
        badges,
        "subscriber"@,
    )
}

/// Whether some badge in the list has the given name.
pub fn has_badge(badges: &Vec<String>, name: &str) -> (r: bool)
    ensures
        r == spec_has_badge(badges.deep_view(), name@),
{
    let mut i: usize = 0;
    while i < badges.len()
        invariant
            i <= badges.len(),
            forall|j: int| 0 <= j < i ==> badges.deep_view()[j] != name@,
        decreases badges.len() - i,
    {
        if str_eq(badges[i].as_str(), name) {
            assert(badges.deep_view()[i as int] == name@);
            return true;
        }
        i += 1;
    }
    false
}

/// The sender may reset the counter or set it to a chosen value.
pub fn allow_reset(badges: &Vec<String>) -> (r: bool)
    ensures
        r == spec_allow_reset(badges.deep_view()),
{
    has_badge(badges, "broadcaster") || has_badge(badges, "moderator")
}

/// The sender may decrement the counter.
pub fn allow_edit(badges: &Vec<String>) -> (r: bool)
    ensures
        r == spec_allow_edit(badges.deep_view()),
{
    allow_reset(badges) || has_badge(badges, "vip") || has_badge(badges, "subscriber")
}

} // verus!
