//! The entries of an archive, as they are listed for the file tree.

use vstd::prelude::*;
use vstd::utf8::encode_utf8;

verus! {

/// One entry of an archive: a file or a directory.
#[derive(Debug, Clone, PartialEq, Eq)]
pub struct TreeOption {
    /// The path of the entry inside the archive.
    pub path: String,
    /// Whether the entry is a directory.
    pub dir: bool,
    /// When the entry was last changed.
    pub date: u64,
    /// The size of the entry once unpacked, in bytes.
    pub size: u64,
}

/// Mathematical value of a [`TreeOption`].
pub struct TreeOptionView {
    pub path: Seq<char>,
    pub dir: bool,
    pub date: u64,
    pub size: u64,
}

impl View for TreeOption {
    type V = TreeOptionView;

    open spec fn view(&self) -> TreeOptionView {
        TreeOptionView { path: self.path@, dir: self.dir, date: self.date, size: self.size }
    }
}

/// The entries of a list, each by its value.
pub open spec fn nodes(entries: Seq<TreeOption>) -> Seq<TreeOptionView> {
    Seq::new(entries.len(), |i: int| entries[i]@)
}

/// A path with `/` in the place of each `\`.
pub open spec fn with_slashes(path: Seq<char>) -> Seq<char> {
    Seq::new(path.len(), |i: int| if path[i] == '\\' { '/' } else { path[i] })
}

/// An entry with `/` in the place of each `\` of its path.
pub open spec fn slashed(entry: TreeOptionView) -> TreeOptionView {
    TreeOptionView { path: with_slashes(entry.path), ..entry }
}

/// The length by which entries are ordered: that of the path, in bytes.
pub open spec fn weight(entry: TreeOptionView) -> usize {
    encode_utf8(entry.path).len() as usize
}

/// No entry comes before a lighter one.
pub open spec fn ordered(entries: Seq<TreeOptionView>) -> bool {
    forall|i: int, j: int|
        0 <= i <= j < entries.len() ==> weight(#[trigger] entries[i]) <= weight(
            #[trigger] entries[j],
        )
}

/// The number of entries at the front of `entries` that are lighter than `w`,
/// up to the first that is not.
pub open spec fn slot(entries: Seq<TreeOptionView>, w: usize) -> nat
    decreases entries.len(),
{
    if entries.len() == 0 {
        0
    } else if weight(entries[0]) >= w {
        0
    } else {
        1 + slot(entries.skip(1), w)
    }
}

/// `entries` with `entry` put in before the first entry that is not lighter.
pub open spec fn placed(entry: TreeOptionView, entries: Seq<TreeOptionView>) -> Seq<
    TreeOptionView,
> {
    entries.insert(slot(entries, weight(entry)) as int, entry)
}

/// The entries ordered by the length of their paths, shortest first, so that a
/// directory comes before what it holds. Entries of one length keep the order
/// they had: each entry is put in before those that came after it and are not
/// lighter.
pub open spec fn by_path_length(entries: Seq<TreeOptionView>) -> Seq<TreeOptionView>
    decreases entries.len(),
{
    if entries.len() == 0 {
        Seq::empty()
    } else {
        placed(entries[0], by_path_length(entries.skip(1)))
    }
}

/// Where `slot` points: every entry before it is lighter than `w`, and the
/// entry at it, if there is one, is not.
pub proof fn lemma_slot(entries: Seq<TreeOptionView>, w: usize)
    ensures
        slot(entries, w) <= entries.len(),
        forall|j: int| 0 <= j < slot(entries, w) ==> weight(#[trigger] entries[j]) < w,
        slot(entries, w) < entries.len() ==> weight(entries[slot(entries, w) as int]) >= w,
    decreases entries.len(),
{
    if entries.len() == 0 {
    } else if weight(entries[0]) >= w {
    } else {
        let rest = entries.skip(1);
        lemma_slot(rest, w);
        assert forall|j: int| 0 <= j < slot(entries, w) implies weight(#[trigger] entries[j])
            < w by {
            if j > 0 {
                assert(entries[j] == rest[j - 1]);
            }
        }
        if slot(rest, w) < rest.len() {
            assert(rest[slot(rest, w) as int] == entries[slot(rest, w) as int + 1]);
        }
    }
}

/// Putting an entry into an ordered list leaves it ordered.
pub proof fn lemma_placed_ordered(entry: TreeOptionView, entries: Seq<TreeOptionView>)
    requires
        ordered(entries),
    ensures
        ordered(placed(entry, entries)),
{
    let at = slot(entries, weight(entry)) as int;
    let out = placed(entry, entries);
    lemma_slot(entries, weight(entry));
    assert forall|i: int, j: int| 0 <= i <= j < out.len() implies weight(#[trigger] out[i])
        <= weight(#[trigger] out[j]) by {
        if i < at {
            assert(out[i] == entries[i]);
        } else if i > at {
            assert(out[i] == entries[i - 1]);
        }
        if j < at {
            assert(out[j] == entries[j]);
        } else if j > at {
            assert(out[j] == entries[j - 1]);
            assert(weight(entries[at]) <= weight(entries[j - 1]));
        }
    }
}

/// The listing is ordered: no entry comes before one with a shorter path.
pub proof fn law_listing_ordered(entries: Seq<TreeOptionView>)
    ensures
        ordered(by_path_length(entries)),
        by_path_length(entries).len() == entries.len(),
    decreases entries.len(),
{
    if entries.len() > 0 {
        law_listing_ordered(entries.skip(1));
        lemma_slot(by_path_length(entries.skip(1)), weight(entries[0]));
        lemma_placed_ordered(entries[0], by_path_length(entries.skip(1)));
    }
}

/// The listing holds the entries it was given: each as often as it came, none
/// added and none lost.
pub proof fn law_listing_keeps_entries(entries: Seq<TreeOptionView>)
    ensures
        by_path_length(entries).to_multiset() == entries.to_multiset(),
    decreases entries.len(),
{
    if entries.len() > 0 {
        let first = entries[0];
        let rest = entries.skip(1);
        let sorted = by_path_length(rest);
        law_listing_keeps_entries(rest);
        lemma_slot(sorted, weight(first));
        vstd::seq_lib::to_multiset_insert(sorted, slot(sorted, weight(first)) as int, first);
        vstd::seq_lib::to_multiset_insert(rest, 0, first);
        assert(entries =~= rest.insert(0, first));
    } else {
        assert(entries =~= Seq::empty());
    }
}

/// The entries of `entries` that weigh `w`, in their order.
pub open spec fn of_weight(entries: Seq<TreeOptionView>, w: usize) -> Seq<TreeOptionView> {
    entries.filter(|e: TreeOptionView| weight(e) == w)
}

/// Of a list in which no entry weighs `w`, none is left.
proof fn lemma_none_of_weight(entries: Seq<TreeOptionView>, w: usize)
    requires
        forall|j: int| 0 <= j < entries.len() ==> weight(#[trigger] entries[j]) != w,
    ensures
        of_weight(entries, w) == Seq::<TreeOptionView>::empty(),
    decreases entries.len(),
{
    reveal(Seq::filter);
    if entries.len() > 0 {
        let front = entries.drop_last();
        assert forall|j: int| 0 <= j < front.len() implies weight(#[trigger] front[j]) != w by {
            assert(front[j] == entries[j]);
        }
        lemma_none_of_weight(front, w);
        assert(weight(entries[entries.len() - 1]) != w);
    }
}

/// Of a list of one entry, that entry is left where it weighs `w`.
proof fn lemma_one_of_weight(entry: TreeOptionView, w: usize)
    ensures
        of_weight(seq![entry], w) == if weight(entry) == w {
            seq![entry]
        } else {
            Seq::<TreeOptionView>::empty()
        },
{
    reveal_with_fuel(Seq::filter, 2);
    let one = seq![entry];
    assert(one.drop_last() =~= Seq::empty());
    assert(one.last() == entry);
    assert(Seq::<TreeOptionView>::empty().push(entry) =~= seq![entry]);
}

/// Putting an entry into an ordered list puts it in front of the entries of
/// its own weight, and leaves those of every other weight as they are.
proof fn lemma_placed_of_weight(entry: TreeOptionView, entries: Seq<TreeOptionView>, w: usize)
    ensures
        of_weight(placed(entry, entries), w) == if weight(entry) == w {
            seq![entry] + of_weight(entries, w)
        } else {
            of_weight(entries, w)
        },
{
    let at = slot(entries, weight(entry)) as int;
    let pred = |e: TreeOptionView| weight(e) == w;
    lemma_slot(entries, weight(entry));
    let before = entries.take(at);
    let after = entries.skip(at);
    assert(entries =~= before + after);
    assert(placed(entry, entries) =~= (before + seq![entry]) + after);
    Seq::filter_distributes_over_add(before, after, pred);
    Seq::filter_distributes_over_add(before + seq![entry], after, pred);
    Seq::filter_distributes_over_add(before, seq![entry], pred);
    lemma_one_of_weight(entry, w);
    if weight(entry) == w {
        assert forall|j: int| 0 <= j < before.len() implies weight(#[trigger] before[j]) != w by {
            assert(before[j] == entries[j]);
        }
        lemma_none_of_weight(before, w);
        assert(of_weight(placed(entry, entries), w) =~= seq![entry] + of_weight(entries, w));
    } else {
        assert(of_weight(placed(entry, entries), w) =~= of_weight(entries, w));
    }
}

/// Entries of one length keep their order: what the listing holds of any one
/// weight is what was given of that weight, in the order it was given.
pub proof fn law_listing_stable(entries: Seq<TreeOptionView>, w: usize)
    ensures
        of_weight(by_path_length(entries), w) == of_weight(entries, w),
    decreases entries.len(),
{
    let pred = |e: TreeOptionView| weight(e) == w;
    if entries.len() > 0 {
        let first = entries[0];
        let rest = entries.skip(1);
        law_listing_stable(rest, w);
        lemma_placed_of_weight(first, by_path_length(rest), w);
        assert(entries =~= seq![first] + rest);
        Seq::filter_distributes_over_add(seq![first], rest, pred);
        lemma_one_of_weight(first, w);
        if weight(first) != w {
            assert(Seq::<TreeOptionView>::empty() + of_weight(rest, w) =~= of_weight(rest, w));
        }
    } else {
        assert(entries =~= Seq::empty());
    }
}

/// Calls `str::replace` with a character as the pattern: every occurrence of
/// `from` is replaced by the one character of `to`, and the other characters
/// are kept.
#[verifier::external_body]
pub(crate) fn replace_char(text: &str, from: char, to: &str) -> (replaced: String)
    requires
        to@.len() == 1,
    ensures
        replaced@ == Seq::new(
            text@.len(),
            |i: int| if text@[i] == from { to@[0] } else { text@[i] },
        ),
{
    text.replace(from, to)
}

/// The path with `/` in the place of each `\`.
pub fn normalize_path(path: &str) -> (normal: String)
    ensures
        normal@ == with_slashes(path@),
{
    proof {
        reveal_strlit("/");
    }
    let normal = replace_char(path, '\\', "/");
    assert(normal@ =~= with_slashes(path@));
    normal
}

/// Puts `entry` into the ordered list `entries`, before the first entry that
/// is not lighter.
fn place(entries: &mut Vec<TreeOption>, entry: TreeOption)
    ensures
        nodes(final(entries)@) == placed(entry@, nodes(old(entries)@)),
{
    let w = entry.path.as_str().len();
    let ghost before = nodes(entries@);
    proof {
        lemma_slot(before, w);
    }
    let mut at: usize = 0;
    while at < entries.len() && entries[at].path.as_str().len() < w
        invariant
            before == nodes(entries@),
            w == weight(entry@),
            at <= slot(before, w) <= entries.len(),
            forall|j: int| 0 <= j < slot(before, w) ==> weight(#[trigger] before[j]) < w,
            slot(before, w) < before.len() ==> weight(before[slot(before, w) as int]) >= w,
        decreases entries.len() - at,
    {
        assert(weight(before[at as int]) < w);
        at = at + 1;
    }
    assert(at == slot(before, w)) by {
        if at < entries.len() {
            assert(weight(before[at as int]) >= w);
        }
    }
    entries.insert(at, entry);
    assert(nodes(entries@) =~= placed(entry@, before));
}

/// Orders the entries by the length of their paths, shortest first. Entries of
/// one length keep their order.
pub fn order_by_path_length(entries: Vec<TreeOption>) -> (listing: Vec<TreeOption>)
    ensures
        nodes(listing@) == by_path_length(nodes(entries@)),
{
    let ghost all = nodes(entries@);
    let mut rest = entries;
    let mut listing: Vec<TreeOption> = Vec::new();
    assert(all.skip(all.len() as int) =~= Seq::empty());
    assert(nodes(listing@) =~= Seq::empty());
    while rest.len() > 0
        invariant
            rest.len() <= all.len(),
            nodes(rest@) == all.take(rest.len() as int),
            nodes(listing@) == by_path_length(all.skip(rest.len() as int)),
        decreases rest.len(),
    {
        let ghost n = rest.len() as int;
        let ghost held = nodes(rest@);
        let entry = rest.pop().unwrap();
        assert(entry@ == held[n - 1]);
        assert(all.skip(n - 1)[0] == entry@);
        assert(all.skip(n - 1).skip(1) =~= all.skip(n));
        place(&mut listing, entry);
        assert(nodes(rest@) =~= all.take(n - 1));
    }
    assert(all.skip(0) =~= all);
    listing
}

/// The listing of a RAR archive: every path is written with `/`, and the
/// entries are ordered by the length of their paths.
pub fn rar_listing(entries: Vec<TreeOption>) -> (listing: Vec<TreeOption>)
    ensures
        nodes(listing@) == by_path_length(
            Seq::new(entries.len() as nat, |i: int| slashed(entries[i]@)),
        ),
{
    let ghost given = nodes(entries@);
    let mut rest = entries;
    let mut normal: Vec<TreeOption> = Vec::new();
    let mut i: usize = 0;
    while i < rest.len()
        invariant
            i <= rest.len(),
            rest.len() == given.len(),
            normal.len() == i,
            nodes(rest@) == given,
            forall|k: int| 0 <= k < i ==> (#[trigger] normal@[k])@ == slashed(given[k]),
        decreases rest.len() - i,
    {
        let entry = &rest[i];
        assert(entry@ == given[i as int]);
        let path = normalize_path(entry.path.as_str());
        normal.push(TreeOption { path, dir: entry.dir, date: entry.date, size: entry.size });
        i = i + 1;
    }
    assert(nodes(normal@) =~= Seq::new(given.len(), |i: int| slashed(given[i])));
    assert(Seq::new(given.len(), |i: int| slashed(given[i])) =~= Seq::new(
        entries.len() as nat,
        |i: int| slashed(entries[i]@),
    ));
    order_by_path_length(normal)
}

} // verus!
