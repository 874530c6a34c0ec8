//! The prompt list: which rows a filter query shows, and the summary of
//! how many prompts there are and which one is active.

use vstd::prelude::*;
use crate::prompt_form::Prompt;

verus! {

/// What `str::to_lowercase` gives for a string (full Unicode lower-case
/// mapping).
pub uninterp spec fn unicode_lowercase(s: Seq<char>) -> Seq<char>;

/// `str::to_lowercase`. Claimed: the result is the named lower-case mapping
/// of the argument.
#[verifier::external_body]
fn to_lowercase(s: &str) -> (r: String)
    ensures
        r@ == unicode_lowercase(s@),
{
    s.to_lowercase()
}

/// `needle` occurs in `hay` at position `k`.
pub open spec fn occurs_at(hay: Seq<char>, needle: Seq<char>, k: int) -> bool {
    0 <= k && k + needle.len() <= hay.len() && hay.subrange(k, k + needle.len()) == needle
}

/// `hay.contains(needle)`.
pub open spec fn contains_seq(hay: Seq<char>, needle: Seq<char>) -> bool {
    exists|k: int| occurs_at(hay, needle, k)
}

fn occurs_at_exec(hay: &str, needle: &str, k: usize, hn: usize, nn: usize) -> (b: bool)
    requires
        hn == hay@.len(),
        nn == needle@.len(),
        k + nn <= hn,
    ensures
        b == occurs_at(hay@, needle@, k as int),
{
    let mut i: usize = 0;
    while i < nn
        invariant
            hn == hay@.len(),
            nn == needle@.len(),
            k + nn <= hn,
            i <= nn,
            forall|j: int| 0 <= j < i ==> hay@[k + j] == needle@[j],
        decreases nn - i,
    {
        if hay.get_char(k + i) != needle.get_char(i) {
            assert(hay@.subrange(k as int, k + nn)[i as int] != needle@[i as int]);
            return false;
        }
        i = i + 1;
    }
    assert(hay@.subrange(k as int, k + nn) =~= needle@);
    true
}

/// Substring search.
pub fn contains_str(hay: &str, needle: &str) -> (b: bool)
    ensures
        b == contains_seq(hay@, needle@),
{
    let hn = hay.unicode_len();
    let nn = needle.unicode_len();
    if nn > hn {
        assert forall|k: int| !occurs_at(hay@, needle@, k) by {}
        return false;
    }
    if nn == 0 {
        assert(hay@.subrange(0, 0) =~= needle@);
        assert(occurs_at(hay@, needle@, 0));
        return true;
    }
    let mut k: usize = 0;
    while k <= hn - nn
        invariant
            hn == hay@.len(),
            nn == needle@.len(),
            1 <= nn <= hn,
            k <= hn - nn + 1,
            forall|j: int| 0 <= j < k ==> !#[trigger] occurs_at(hay@, needle@, j),
        decreases hn - nn + 1 - k,
    {
        if occurs_at_exec(hay, needle, k, hn, nn) {
            return true;
        }
        k = k + 1;
    }
    assert forall|j: int| !#[trigger] occurs_at(hay@, needle@, j) by {
        if 0 <= j < k {
        }
    }
    false
}

/// A row is shown when there is no query, or when its lower-cased name or
/// id contains the (already lower-cased) query.
pub open spec fn spec_prompt_visible(name: Seq<char>, id: Seq<char>, query: Option<Seq<char>>) -> bool {
    match query {
        None => true,
        Some(q) => contains_seq(unicode_lowercase(name), q) || contains_seq(
            unicode_lowercase(id),
            q,
        ),
    }
}

pub fn prompt_visible(name: &str, id: &str, query_lower: Option<&str>) -> (b: bool)
    ensures
        b == spec_prompt_visible(
            name@,
            id@,
            match query_lower {
                Some(q) => Some(q@),
                None => None,
            },
        ),
{
    match query_lower {
        None => true,
        Some(q) => {
            let name_lower = to_lowercase(name);
            if contains_str(name_lower.as_str(), q) {
                return true;
            }
            let id_lower = to_lowercase(id);
            contains_str(id_lower.as_str(), q)
        },
    }
}

/// The first enabled prompt, whose name the summary shows as active.
pub fn first_active_prompt(prompts: &Vec<Prompt>) -> (r: Option<usize>)
    ensures
        r matches Some(i) ==> i < prompts@.len() && prompts@[i as int].enabled && forall|j: int|
            0 <= j < i ==> !(#[trigger] prompts@[j]).enabled,
        r is None ==> forall|j: int| 0 <= j < prompts@.len() ==> !(#[trigger] prompts@[j]).enabled,
{
    let mut i: usize = 0;
    while i < prompts.len()
        invariant
            i <= prompts@.len(),
            forall|j: int| 0 <= j < i ==> !(#[trigger] prompts@[j]).enabled,
        decreases prompts@.len() - i,
    {
        if prompts[i].enabled {
            return Some(i);
        }
        i = i + 1;
    }
    None
}

} // verus!
