//! Choice of the one representation that a reading is reported as.
//!
//! A clipboard write often fills several representations at once: copying a
//! file also sets its path as text. Only the first representation in a
//! priority order is reported.

use vstd::prelude::*;
use crate::payload::{ClipboardPayload, ClipboardReading, ContentKind, ReadingView};

verus! {

/// The order in which representations are looked at unless the caller gives
/// another: file list, then text, then image.
pub open spec fn default_order() -> Seq<ContentKind> {
    seq![ContentKind::FileList, ContentKind::Text, ContentKind::Image]
}

/// The first kind of `order` of which `reading` holds a non-empty
/// representation.
pub open spec fn first_held(reading: ReadingView, order: Seq<ContentKind>) -> Option<ContentKind>
    decreases order.len(),
{
    if order.len() == 0 {
        None
    } else if reading.holds(order[0]) {
        Some(order[0])
    } else {
        first_held(reading, order.skip(1))
    }
}

/// The position in `order` at which `first_held` stops: the length of `order`
/// where no kind is held.
pub open spec fn first_held_at(reading: ReadingView, order: Seq<ContentKind>) -> nat
    decreases order.len(),
{
    if order.len() == 0 {
        0
    } else if reading.holds(order[0]) {
        0
    } else {
        1 + first_held_at(reading, order.skip(1))
    }
}

/// `first_held` answers with the kind at the lowest position that is held, and
/// with `None` exactly where no kind of the order is held.
pub proof fn lemma_first_held(reading: ReadingView, order: Seq<ContentKind>)
    ensures
        first_held_at(reading, order) <= order.len(),
        forall|j: int| 0 <= j < first_held_at(reading, order) ==> !reading.holds(#[trigger] order[j]),
        first_held_at(reading, order) < order.len() ==> {
            &&& reading.holds(order[first_held_at(reading, order) as int])
            &&& first_held(reading, order) == Some(order[first_held_at(reading, order) as int])
        },
        first_held_at(reading, order) == order.len() ==> first_held(reading, order) is None,
    decreases order.len(),
{
    if order.len() == 0 {
    } else if reading.holds(order[0]) {
    } else {
        let rest = order.skip(1);
        lemma_first_held(reading, rest);
        let at = first_held_at(reading, rest);
        assert forall|j: int| 0 <= j < first_held_at(reading, order) implies !reading.holds(
            #[trigger] order[j],
        ) by {
            if j > 0 {
                assert(order[j] == rest[j - 1]);
            }
        }
        if at < rest.len() {
            assert(rest[at as int] == order[at as int + 1]);
        }
    }
}

/// The order that is used where the caller has none of its own.
pub fn default_priority() -> (order: Vec<ContentKind>)
    ensures
        order@ == default_order(),
{
    let mut order: Vec<ContentKind> = Vec::new();
    order.push(ContentKind::FileList);
    order.push(ContentKind::Text);
    order.push(ContentKind::Image);
    assert(order@ =~= default_order());
    order
}

/// The kind under which `reading` is reported: the first of `order` that it
/// holds, `None` where it holds none of them.
pub fn select_kind(reading: &ClipboardReading, order: &Vec<ContentKind>) -> (kind: Option<
    ContentKind,
>)
    ensures
        kind == first_held(reading@, order@),
{
    let mut i: usize = 0;
    proof {
        lemma_first_held(reading@, order@);
    }
    while i < order.len()
        invariant
            i <= order.len(),
            i <= first_held_at(reading@, order@),
            first_held_at(reading@, order@) <= order.len(),
            forall|j: int|
                0 <= j < first_held_at(reading@, order@) ==> !reading@.holds(#[trigger] order@[j]),
            first_held_at(reading@, order@) < order.len() ==> {
                &&& reading@.holds(order@[first_held_at(reading@, order@) as int])
                &&& first_held(reading@, order@) == Some(
                    order@[first_held_at(reading@, order@) as int],
                )
            },
            first_held_at(reading@, order@) == order.len() ==> first_held(reading@, order@) is None,
        decreases order.len() - i,
    {
        let kind = order[i];
        if reading.holds(kind) {
            return Some(kind);
        }
        i = i + 1;
    }
    None
}

/// Picks the representation to report out of `reading`, looking at the kinds in
/// the given order, and hands it out. `None` where the reading holds nothing.
pub fn select(reading: ClipboardReading, order: &Vec<ContentKind>) -> (chosen: Option<
    ClipboardPayload,
>)
    ensures
        match first_held(reading@, order@) {
            Some(kind) => chosen matches Some(p) && p@ == reading@.payload(kind),
            None => chosen is None,
        },
{
    proof {
        lemma_first_held(reading@, order@);
    }
    match select_kind(&reading, order) {
        Some(kind) => reading.into_payload(kind),
        None => None,
    }
}

} // verus!
