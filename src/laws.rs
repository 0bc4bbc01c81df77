use vstd::prelude::*;
use crate::parser::{entry, BlockType, FormatType};
use crate::renderer::{
    close, grouping, plan, slot_of, step, BlockRenderer, Grouping, InlineRenderer, Renderer,
    Segment, Slot, WrapperRenderer,
};

verus! {

/// The ids a segment stands for, in order.
pub open spec fn members(s: Segment) -> Seq<Seq<char>> {
    match s {
        Segment::Group(_, m) => m,
        Segment::Single(id) => seq![id],
    }
}

/// All ids of a list of segments, in order.
pub open spec fn flatten(segs: Seq<Segment>) -> Seq<Seq<char>>
    decreases segs.len(),
{
    if segs.len() == 0 {
        Seq::empty()
    } else {
        flatten(segs.drop_last()) + members(segs.last())
    }
}

/// The ids of `ids` that the table holds, in order.
pub open spec fn present(table: Seq<(String, BlockType)>, ids: Seq<Seq<char>>) -> Seq<Seq<char>>
    decreases ids.len(),
{
    if ids.len() == 0 {
        Seq::empty()
    } else if slot_of(table, ids.last()) == Slot::Absent {
        present(table, ids.drop_last())
    } else {
        present(table, ids.drop_last()).push(ids.last())
    }
}

/// A group holds one or more list items, all of its kind; a single id is a
/// present block that is not a list item.
pub open spec fn segment_ok(table: Seq<(String, BlockType)>, s: Segment) -> bool {
    match s {
        Segment::Group(k, m) => m.len() > 0 && forall|j: int|
            0 <= j < m.len() ==> #[trigger] slot_of(table, m[j]) == Slot::Grouped(k),
        Segment::Single(id) => slot_of(table, id) == Slot::Plain,
    }
}

pub open spec fn same_kind_groups(a: Segment, b: Segment) -> bool {
    match (a, b) {
        (Segment::Group(k1, _), Segment::Group(k2, _)) => k1 == k2,
        _ => false,
    }
}

/// What holds after the grouping walk has taken `ids`: finished segments and
/// the open group together hold the present ids in order, finished segments
/// are well formed and no two neighbours are groups of one kind, the open
/// group's items share its kind, and the open group could not have joined the
/// last finished one.
pub open spec fn walk_ok(table: Seq<(String, BlockType)>, st: Grouping, ids: Seq<Seq<char>>) -> bool {
    &&& flatten(st.done) + st.open == present(table, ids)
    &&& forall|i: int| 0 <= i < st.done.len() ==> #[trigger] segment_ok(table, st.done[i])
    &&& forall|i: int|
        0 <= i < st.done.len() - 1 ==> !same_kind_groups(#[trigger] st.done[i], st.done[i + 1])
    &&& forall|j: int| 0 <= j < st.open.len() ==> #[trigger] slot_of(table, st.open[j]) == Slot::Grouped(st.kind)
    &&& st.open.len() == 0 ==> (st.done.len() == 0 || st.done.last() is Single)
    &&& (st.open.len() > 0 && st.done.len() > 0) ==> !same_kind_groups(
        st.done.last(),
        Segment::Group(st.kind, st.open),
    )
}

proof fn lemma_flatten_push(segs: Seq<Segment>, s: Segment)
    ensures
        flatten(segs.push(s)) == flatten(segs) + members(s),
{
    assert(segs.push(s).drop_last() =~= segs);
}

proof fn lemma_close_ok(table: Seq<(String, BlockType)>, st: Grouping, ids: Seq<Seq<char>>)
    requires
        walk_ok(table, st, ids),
    ensures
        flatten(close(st)) == present(table, ids),
        forall|i: int| 0 <= i < close(st).len() ==> #[trigger] segment_ok(table, close(st)[i]),
        forall|i: int|
            0 <= i < close(st).len() - 1 ==> !same_kind_groups(#[trigger] close(st)[i], close(st)[i + 1]),
        close(st).len() == 0 || close(st).last() is Single || st.open.len() > 0,
{
    if st.open.len() == 0 {
        assert(flatten(st.done) + st.open =~= flatten(st.done));
    } else {
        let g = Segment::Group(st.kind, st.open);
        lemma_flatten_push(st.done, g);
        assert(segment_ok(table, g));
        let c = close(st);
        assert forall|i: int| 0 <= i < c.len() implies #[trigger] segment_ok(table, c[i]) by {
            if i < st.done.len() {
                assert(c[i] == st.done[i]);
            }
        }
        assert forall|i: int| 0 <= i < c.len() - 1 implies !same_kind_groups(#[trigger] c[i], c[i + 1]) by {
            if i < st.done.len() - 1 {
                assert(c[i] == st.done[i] && c[i + 1] == st.done[i + 1]);
            }
        }
    }
}

proof fn lemma_walk_ok(table: Seq<(String, BlockType)>, ids: Seq<Seq<char>>)
    ensures
        walk_ok(table, grouping(table, ids), ids),
    decreases ids.len(),
{
    if ids.len() == 0 {
        assert(flatten(Seq::<Segment>::empty()) + Seq::<Seq<char>>::empty() =~= Seq::<Seq<char>>::empty());
    } else {
        let prev = ids.drop_last();
        let id = ids.last();
        lemma_walk_ok(table, prev);
        let st = grouping(table, prev);
        let nx = step(table, st, id);
        assert(grouping(table, ids) == nx);
        match slot_of(table, id) {
            Slot::Absent => {},
            Slot::Grouped(k) => {
                if st.open.len() == 0 || st.kind == k {
                    assert(flatten(st.done) + st.open.push(id) =~= (flatten(st.done) + st.open).push(id));
                    assert forall|j: int| 0 <= j < nx.open.len() implies #[trigger] slot_of(table, nx.open[j]) == Slot::Grouped(nx.kind) by {
                        if j < st.open.len() {
                            assert(nx.open[j] == st.open[j]);
                        }
                    }
                } else {
                    lemma_close_ok(table, st, prev);
                    assert(flatten(close(st)) + seq![id] =~= present(table, prev).push(id));
                    assert(close(st).last() == Segment::Group(st.kind, st.open));
                }
            },
            Slot::Plain => {
                lemma_close_ok(table, st, prev);
                let c = close(st);
                let s = Segment::Single(id);
                lemma_flatten_push(c, s);
                assert(flatten(c) + seq![id] =~= present(table, prev).push(id));
                assert(flatten(nx.done) + nx.open =~= flatten(nx.done));
                assert forall|i: int| 0 <= i < nx.done.len() implies #[trigger] segment_ok(table, nx.done[i]) by {
                    if i < c.len() {
                        assert(nx.done[i] == c[i]);
                    }
                }
                assert forall|i: int| 0 <= i < nx.done.len() - 1 implies !same_kind_groups(#[trigger] nx.done[i], nx.done[i + 1]) by {
                    if i < c.len() - 1 {
                        assert(nx.done[i] == c[i] && nx.done[i + 1] == c[i + 1]);
                    }
                }
            },
        }
    }
}

proof fn lemma_present_all(table: Seq<(String, BlockType)>, ids: Seq<Seq<char>>)
    requires
        forall|i: int| 0 <= i < ids.len() ==> #[trigger] slot_of(table, ids[i]) != Slot::Absent,
    ensures
        present(table, ids) == ids,
    decreases ids.len(),
{
    if ids.len() > 0 {
        let prev = ids.drop_last();
        assert forall|i: int| 0 <= i < prev.len() implies #[trigger] slot_of(table, prev[i]) != Slot::Absent by {
            assert(prev[i] == ids[i]);
        }
        lemma_present_all(table, prev);
        assert(slot_of(table, ids[ids.len() - 1]) != Slot::Absent);
        assert(prev.push(ids.last()) =~= ids);
    }
}

/// Grouping of a child list: the segments hold exactly the ids that the table
/// holds, in their order; each group is a non-empty run of list items of one
/// kind and each single id a present block that is not a list item (so where
/// every id is present, the segments hold the ids themselves); no two
/// neighbouring segments are groups of the same kind, so every group is a
/// maximal run.
pub proof fn lemma_plan_groups_maximal_runs(table: Seq<(String, BlockType)>, ids: Seq<Seq<char>>)
    ensures
        flatten(plan(table, ids)) == present(table, ids),
        (forall|i: int| 0 <= i < ids.len() ==> #[trigger] slot_of(table, ids[i]) != Slot::Absent)
            ==> flatten(plan(table, ids)) == ids,
        forall|i: int| 0 <= i < plan(table, ids).len() ==> #[trigger] segment_ok(table, plan(table, ids)[i]),
        forall|i: int|
            0 <= i < plan(table, ids).len() - 1 ==> !same_kind_groups(
                #[trigger] plan(table, ids)[i],
                plan(table, ids)[i + 1],
            ),
{
    lemma_walk_ok(table, ids);
    lemma_close_ok(table, grouping(table, ids), ids);
    if forall|i: int| 0 <= i < ids.len() ==> #[trigger] slot_of(table, ids[i]) != Slot::Absent {
        lemma_present_all(table, ids);
    }
}

impl<'b, R: View, B, I, W> Renderer<'b, R, B, I, W> where
    B: BlockRenderer<R>,
    I: InlineRenderer<R>,
    W: WrapperRenderer<R>,
 {
    /// An id that the table does not hold renders as the block renderer's empty value.
    pub proof fn lemma_missing_id_renders_empty(&self, id: Seq<char>, depth: nat)
        requires
            entry(self.table(), id) is None,
        ensures
            self.spec_render(id, depth) == self.empty_spec(),
    {
    }

    /// A rendered child list has one piece per segment of its plan, in order:
    /// a single id's block, or the wrapper around a group's items.
    pub proof fn lemma_children_follow_plan(&self, ids: Seq<Seq<char>>, depth: nat)
        ensures
            self.spec_children(ids, depth) == self.wrapper_renderer.collect_spec(
                self.spec_segments(plan(self.table(), ids), depth),
            ),
            self.spec_segments(plan(self.table(), ids), depth).len() == plan(self.table(), ids).len(),
            forall|i: int| 0 <= i < plan(self.table(), ids).len() ==>
                #[trigger] self.spec_segments(plan(self.table(), ids), depth)[i] == match plan(self.table(), ids)[i] {
                    Segment::Single(id) => self.spec_render(id, depth),
                    Segment::Group(k, m) => self.spec_wrapper(k, m, depth),
                },
    {
        self.lemma_segments_pointwise(plan(self.table(), ids), depth);
    }

    proof fn lemma_segments_pointwise(&self, segs: Seq<Segment>, depth: nat)
        ensures
            self.spec_segments(segs, depth).len() == segs.len(),
            forall|i: int| 0 <= i < segs.len() ==>
                #[trigger] self.spec_segments(segs, depth)[i] == match segs[i] {
                    Segment::Single(id) => self.spec_render(id, depth),
                    Segment::Group(k, m) => self.spec_wrapper(k, m, depth),
                },
        decreases segs.len(),
    {
        if segs.len() > 0 {
            self.lemma_segments_pointwise(segs.drop_last(), depth);
            assert forall|i: int| 0 <= i < segs.len() implies
                #[trigger] self.spec_segments(segs, depth)[i] == match segs[i] {
                    Segment::Single(id) => self.spec_render(id, depth),
                    Segment::Group(k, m) => self.spec_wrapper(k, m, depth),
                } by {
                if i < segs.len() - 1 {
                    assert(segs[i] == segs.drop_last()[i]);
                }
            }
        }
    }

    /// Marks apply innermost-first: the first mark wraps the plain text, and
    /// the remaining marks wrap that result in their order.
    pub proof fn lemma_first_mark_innermost(&self, acc: R::V, first: FormatType, rest: Seq<FormatType>)
        ensures
            self.spec_marks(acc, seq![first] + rest) == self.spec_marks(self.spec_mark(acc, first), rest),
        decreases rest.len(),
    {
        if rest.len() == 0 {
            assert(seq![first] + rest =~= seq![first]);
            assert(seq![first].drop_last() =~= Seq::<FormatType>::empty());
            assert(self.spec_marks(acc, Seq::<FormatType>::empty()) == acc);
            assert(self.spec_marks(acc, seq![first]) == self.spec_mark(acc, first));
        } else {
            self.lemma_first_mark_innermost(acc, first, rest.drop_last());
            let all = seq![first] + rest;
            assert(all.drop_last() =~= seq![first] + rest.drop_last());
            assert(all.last() == rest.last());
            assert(self.spec_marks(acc, all) == self.spec_mark(self.spec_marks(acc, all.drop_last()), all.last()));
            let inner = self.spec_mark(acc, first);
            assert(self.spec_marks(inner, rest) == self.spec_mark(self.spec_marks(inner, rest.drop_last()), rest.last()));
        }
    }
}

} // verus!
