//! The relay loop's decisions: which posts trigger a relay, the payload built
//! for a post, and what to do after each delivery.
use vstd::prelude::*;
use vstd::string::*;
use crate::assemble::{assemble, payload};
use crate::model::{Post, SearchHit};
use crate::normalize::{markdown_of, unescaped};
use crate::resolve::{resolve, resolved};
use crate::text::{lower_of, to_lowercase};

verus! {

/// The tag that marks a post for relaying, in lowercase.
pub open spec fn trigger_tag() -> Seq<char> {
    "memos"@
}

/// Some tag of the post lowercases to the trigger tag.
pub open spec fn is_trigger(post: Post) -> bool {
    exists|i: int| 0 <= i < post.tags@.len() && lower_of(#[trigger] post.tags@[i]@) == trigger_tag()
}

/// How a relayed post is marked as handled on the source.
#[derive(PartialEq, Eq, Structural, Clone, Copy, Debug)]
pub enum MarkKind {
    /// Undo the reblog: the post was a reblog wrapper.
    Unreblog,
    /// Delete the post: it was a direct post.
    Delete,
}

/// The marker action for a post.
pub open spec fn mark_kind_of(post: Post) -> MarkKind {
    if post.reblog is Some {
        MarkKind::Unreblog
    } else {
        MarkKind::Delete
    }
}

/// What the relay loop does next within one iteration over a page of posts.
#[derive(PartialEq, Eq, Structural, Clone, Copy, Debug)]
pub enum Step {
    /// Resolve, assemble and deliver the post at this index of the page.
    Process(usize),
    /// Mark the post at this index as handled, then sleep.
    Mark(usize, MarkKind),
    /// Nothing more to do in this iteration: sleep.
    Sleep,
}

/// The index of the first trigger post at or after `from`.
pub open spec fn next_trigger(page: Seq<Post>, from: int) -> Option<int>
    decreases page.len() - from,
{
    if from < 0 || from >= page.len() {
        None
    } else if is_trigger(page[from]) {
        Some(from)
    } else {
        next_trigger(page, from + 1)
    }
}

/// The step that looks for a candidate at or after `from`.
pub open spec fn step_from(page: Seq<Post>, from: int) -> Step {
    match next_trigger(page, from) {
        Some(i) => Step::Process(i as usize),
        None => Step::Sleep,
    }
}

/// The step after delivering the post at `i`: mark it on success, else go on
/// with the next candidate.
pub open spec fn step_after(page: Seq<Post>, i: int, delivered: bool) -> Step {
    if delivered {
        Step::Mark(i as usize, mark_kind_of(page[i]))
    } else {
        step_from(page, i + 1)
    }
}

/// The payload that is delivered for a post.
pub open spec fn post_payload(post: Post, hit: Option<SearchHit>) -> Seq<char> {
    let r = resolved(post, hit);
    payload(r, unescaped(markdown_of(r.content_html)))
}

/// The indices of the posts handed to delivery in an iteration that is at
/// `step`, when the deliveries succeed or fail in turn as `outcomes` says; the
/// record ends where the iteration sleeps or the outcomes run out.
pub open spec fn delivered(page: Seq<Post>, step: Step, outcomes: Seq<bool>) -> Seq<int>
    decreases outcomes.len(),
{
    match step {
        Step::Process(i) => {
            if outcomes.len() == 0 {
                Seq::empty()
            } else {
                seq![i as int] + delivered(
                    page,
                    step_after(page, i as int, outcomes[0]),
                    outcomes.subrange(1, outcomes.len() as int),
                )
            }
        },
        _ => Seq::empty(),
    }
}

proof fn lemma_next_trigger(page: Seq<Post>, from: int)
    requires
        0 <= from,
    ensures
        match next_trigger(page, from) {
            Some(i) => from <= i < page.len() && is_trigger(page[i]),
            None => forall|j: int| from <= j < page.len() ==> !is_trigger(#[trigger] page[j]),
        },
    decreases page.len() - from,
{
    if from < page.len() && !is_trigger(page[from]) {
        lemma_next_trigger(page, from + 1);
    }
}

proof fn lemma_delivered_from(page: Seq<Post>, from: int, outcomes: Seq<bool>)
    requires
        0 <= from,
        page.len() <= usize::MAX,
    ensures
        ({
            let d = delivered(page, step_from(page, from), outcomes);
            &&& d.len() <= outcomes.len()
            &&& forall|k: int| 0 <= k < d.len() ==> from <= #[trigger] d[k] < page.len() && is_trigger(page[d[k]])
            &&& forall|k: int| 0 <= k < d.len() - 1 ==> !#[trigger] outcomes[k]
            &&& forall|k: int| 0 <= k < d.len() - 1 ==> #[trigger] d[k] < d[k + 1]
        }),
    decreases outcomes.len(),
{
    lemma_next_trigger(page, from);
    let d = delivered(page, step_from(page, from), outcomes);
    match next_trigger(page, from) {
        Some(i) => {
            if outcomes.len() > 0 {
                let rest = outcomes.subrange(1, outcomes.len() as int);
                assert((i as usize) as int == i);
                if outcomes[0] {
                    assert(step_after(page, i, true) is Mark);
                    assert(delivered(page, step_after(page, i, true), rest) == Seq::<int>::empty());
                    assert(d =~= seq![i]);
                } else {
                    lemma_delivered_from(page, i + 1, rest);
                    let tail = delivered(page, step_from(page, i + 1), rest);
                    assert(d =~= seq![i] + tail);
                    assert(step_after(page, i, false) == step_from(page, i + 1));
                    assert forall|k: int| 0 <= k < d.len() - 1 implies !outcomes[k] && d[k] < d[k + 1] by {
                        if k > 0 {
                            assert(outcomes[k] == rest[k - 1]);
                            assert(d[k] == tail[k - 1] && d[k + 1] == tail[k]);
                        } else {
                            assert(d[1] == tail[0]);
                        }
                    }
                    assert forall|k: int| 0 <= k < d.len() implies from <= #[trigger] d[k] < page.len()
                        && is_trigger(page[d[k]]) by {
                        if k > 0 {
                            assert(d[k] == tail[k - 1]);
                        }
                    }
                }
            }
        },
        None => {},
    }
}

/// Only trigger posts are ever handed to resolution and delivery, each at
/// most once in an iteration, in the order of the page.
pub proof fn lemma_only_trigger_posts_delivered(page: Seq<Post>, outcomes: Seq<bool>)
    requires
        page.len() <= usize::MAX,
    ensures
        ({
            let d = delivered(page, step_from(page, 0), outcomes);
            &&& forall|k: int| 0 <= k < d.len() ==> 0 <= #[trigger] d[k] < page.len() && is_trigger(page[d[k]])
            &&& forall|k: int| 0 <= k < d.len() - 1 ==> #[trigger] d[k] < d[k + 1]
        }),
{
    lemma_delivered_from(page, 0, outcomes);
}

/// One mark per iteration: a successful delivery is followed by its post's
/// mark and nothing else, so only the last post delivered in an iteration can
/// have been delivered successfully.
pub proof fn lemma_one_mark_per_iteration(page: Seq<Post>, i: int, outcomes: Seq<bool>)
    requires
        page.len() <= usize::MAX,
        0 <= i < page.len(),
    ensures
        step_after(page, i, true) == Step::Mark(i as usize, mark_kind_of(page[i])),
        delivered(page, step_after(page, i, true), outcomes) == Seq::<int>::empty(),
        ({
            let d = delivered(page, step_from(page, 0), outcomes);
            forall|k: int| 0 <= k < d.len() - 1 ==> !outcomes[k]
        }),
{
    lemma_delivered_from(page, 0, outcomes);
}

/// Whether an already lowercased tag name is the trigger tag.
pub fn is_trigger_name(lowered: &str) -> (r: bool)
    ensures
        r == (lowered@ == trigger_tag()),
{
    String::from_str(lowered) == String::from_str("memos")
}

/// Whether the post carries the trigger tag, in any letter case.
pub fn has_trigger_tag(post: &Post) -> (r: bool)
    ensures
        r == is_trigger(*post),
{
    let mut i: usize = 0;
    while i < post.tags.len()
        invariant
            i <= post.tags@.len(),
            forall|j: int| 0 <= j < i ==> lower_of(#[trigger] post.tags@[j]@) != trigger_tag(),
        decreases post.tags.len() - i,
    {
        let lowered = to_lowercase(post.tags[i].as_str());
        if is_trigger_name(lowered.as_str()) {
            return true;
        }
        i = i + 1;
    }
    false
}

/// The marker action for a post: unreblog a reblog wrapper, delete a direct post.
pub fn mark_kind(post: &Post) -> (r: MarkKind)
    ensures
        r == mark_kind_of(*post),
{
    if post.reblog.is_some() {
        MarkKind::Unreblog
    } else {
        MarkKind::Delete
    }
}

/// The index of the first trigger post at or after `from`.
pub fn next_candidate(page: &Vec<Post>, from: usize) -> (r: Option<usize>)
    ensures
        match r {
            Some(i) => next_trigger(page@, from as int) == Some(i as int),
            None => next_trigger(page@, from as int) is None,
        },
{
    let mut i: usize = from;
    while i < page.len()
        invariant
            from <= i,
            next_trigger(page@, from as int) == next_trigger(page@, i as int),
        decreases page.len() - i,
    {
        if has_trigger_tag(&page[i]) {
            return Some(i);
        }
        i = i + 1;
    }
    None
}

/// The first step of an iteration over a freshly fetched page.
pub fn first_step(page: &Vec<Post>) -> (r: Step)
    ensures
        r == step_from(page@, 0),
{
    match next_candidate(page, 0) {
        Some(i) => Step::Process(i),
        None => Step::Sleep,
    }
}

/// The step after the delivery of the post at `index` succeeded or failed.
pub fn after_delivery(page: &Vec<Post>, index: usize, delivered: bool) -> (r: Step)
    requires
        index < page@.len(),
    ensures
        r == step_after(page@, index as int, delivered),
{
    let n = page.len();
    if delivered {
        Step::Mark(index, mark_kind(&page[index]))
    } else {
        match next_candidate(page, index + 1) {
            Some(i) => Step::Process(i),
            None => Step::Sleep,
        }
    }
}

/// The payload delivered for `post`, where `hit` is the first result of the
/// search for `find_status_link(post)`, if one was made and found anything.
pub fn build_payload(post: &Post, hit: &Option<SearchHit>) -> (p: String)
    ensures
        p@ == post_payload(*post, *hit),
{
    let r = resolve(post, hit);
    assemble(&r)
}

} // verus!
