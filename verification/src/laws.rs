//! Laws of the view-state controller, proved from the transition
//! contracts alone.

use vstd::prelude::*;
use crate::controller::ControllerState;
use crate::controller::Effect;
use crate::controller::School;
use crate::controller::apply_viewed_school_post;
use crate::controller::query_of;
use crate::controller::request_search_post;
use crate::controller::same_school;
use crate::controller::search_completed_post;
use crate::controller::select_school_post;
use crate::grid::SchoolData;

verus! {

/// Reset on change: viewing one school and then a school with a
/// different display name resets grade and class to 1.
pub proof fn lemma_reset_on_change(
    s0: ControllerState,
    s1: ControllerState,
    s2: ControllerState,
    first: SchoolData,
    second: SchoolData,
    seq1: u64,
    seq2: u64,
    e1: Seq<Effect>,
    e2: Seq<Effect>,
)
    requires
        seq1 == s0.view_seq,
        apply_viewed_school_post(s0, s1, seq1, first, e1),
        seq2 == s1.view_seq,
        apply_viewed_school_post(s1, s2, seq2, second, e2),
        first.name@ != second.name@,
    ensures
        s2.grade == 1,
        s2.school_class == 1,
{
    assert(!same_school(s1, second));
}

/// Preserve on same: re-viewing the school whose name is already the
/// cached one leaves grade and class exactly as they were, whatever
/// they were.
pub proof fn lemma_preserve_on_same(
    s0: ControllerState,
    s1: ControllerState,
    data: SchoolData,
    seq: u64,
    e: Seq<Effect>,
)
    requires
        s0.cached_school_name matches Some(n) && n@ == data.name@,
        seq == s0.view_seq,
        apply_viewed_school_post(s0, s1, seq, data, e),
    ensures
        s1.grade == s0.grade,
        s1.school_class == s0.school_class,
{
    assert(same_school(s0, data));
}

/// Stale search results are discarded: when one search is issued after
/// another and the older task resolves last, the result list stays the
/// newer task's, never reverting to the older one's.
pub proof fn lemma_stale_search_discarded(
    s0: ControllerState,
    s1: ControllerState,
    s2: ControllerState,
    s3: ControllerState,
    s4: ControllerState,
    text_a: String,
    text_b: String,
    results_a: Vec<School>,
    results_b: Vec<School>,
    e1: Seq<Effect>,
    e2: Seq<Effect>,
    e3: Seq<Effect>,
    e4: Seq<Effect>,
)
    requires
        request_search_post(s0, s1, text_a, e1),
        request_search_post(s1, s2, text_b, e2),
        search_completed_post(s2, s3, s2.search_seq, results_b, e3),
        search_completed_post(s3, s4, s1.search_seq, results_a, e4),
    ensures
        s4.results == results_b,
{
    assert(s1.search_seq != s3.search_seq);
}

/// Stale view transitions are discarded too: when a second school is
/// selected while the first selection is still being resolved, a
/// schedule arriving for the first selection changes nothing.
pub proof fn lemma_stale_view_discarded(
    s0: ControllerState,
    s1: ControllerState,
    s2: ControllerState,
    s3: ControllerState,
    query_a: Option<String>,
    query_b: Option<String>,
    data: SchoolData,
    e1: Seq<Effect>,
    e2: Seq<Effect>,
    e3: Seq<Effect>,
)
    requires
        select_school_post(s0, s1, query_a, e1),
        query_of(s0, query_a) is Some,
        select_school_post(s1, s2, query_b, e2),
        query_of(s1, query_b) is Some,
        apply_viewed_school_post(s2, s3, s1.view_seq, data, e3),
    ensures
        s3 == s2,
        e3.len() == 0,
{
    assert(s1.view_seq != s2.view_seq);
}

} // verus!
