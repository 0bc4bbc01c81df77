use vstd::prelude::*;
use vstd::string::*;
use std::marker::PhantomData;
use crate::parser::{
    entry, find_block, BaseValueType, BlockTableType, BlockType, ColorType, ContextFormat, Either,
    FormatType, FormattedText, NoContextFormat, RootBlockType, TextProperties,
};

verus! {

/// The shape in which a block with a title is drawn.
#[derive(Debug, Clone, Copy, PartialEq, Eq, Structural)]
pub enum BlockStyle {
    Page,
    Text,
    BulletedList,
    NumberedList,
    Toggle,
    Quote,
    Header,
    SubHeader,
    SubSubHeader,
}

/// The kinds of block whose neighbours of the same kind share one list wrapper.
#[derive(Debug, Clone, Copy, PartialEq, Eq, Structural)]
pub enum GroupKind {
    Bulleted,
    Numbered,
}

/// An inline mark as it reaches an `InlineRenderer`.
pub enum InlineStyle {
    Bold,
    Italic,
    Underline,
    Strike,
    Code,
    Link(Seq<char>),
    Highlight(ColorType),
}

/// The views of an optional value.
pub open spec fn opt_view<T: View>(o: Option<T>) -> Option<T::V> {
    match o {
        Option::Some(t) => Option::Some(t@),
        Option::None => Option::None,
    }
}

/// The views of a sequence of values.
pub open spec fn seq_view<T: View>(s: Seq<T>) -> Seq<T::V> {
    s.map_values(|t: T| t@)
}

/// Draws blocks. `block_spec`, `divider_spec` and `empty_spec` say what each
/// method returns.
pub trait BlockRenderer<T: View> {
    spec fn block_spec(&self, style: BlockStyle, children: T::V, text: Option<T::V>) -> T::V;

    spec fn divider_spec(&self, children: T::V) -> T::V;

    spec fn empty_spec(&self) -> T::V;

    fn page_block(&self, children: T, text: Option<T>) -> (r: T)
        ensures
            r@ == self.block_spec(BlockStyle::Page, children@, opt_view(text)),
    ;

    fn text_block(&self, children: T, text: Option<T>) -> (r: T)
        ensures
            r@ == self.block_spec(BlockStyle::Text, children@, opt_view(text)),
    ;

    fn bulleted_list_block(&self, children: T, text: Option<T>) -> (r: T)
        ensures
            r@ == self.block_spec(BlockStyle::BulletedList, children@, opt_view(text)),
    ;

    fn numbered_list_block(&self, children: T, text: Option<T>) -> (r: T)
        ensures
            r@ == self.block_spec(BlockStyle::NumberedList, children@, opt_view(text)),
    ;

    fn toggle_block(&self, children: T, text: Option<T>) -> (r: T)
        ensures
            r@ == self.block_spec(BlockStyle::Toggle, children@, opt_view(text)),
    ;

    fn quote_block(&self, children: T, text: Option<T>) -> (r: T)
        ensures
            r@ == self.block_spec(BlockStyle::Quote, children@, opt_view(text)),
    ;

    fn header_block(&self, children: T, text: Option<T>) -> (r: T)
        ensures
            r@ == self.block_spec(BlockStyle::Header, children@, opt_view(text)),
    ;

    fn sub_header_block(&self, children: T, text: Option<T>) -> (r: T)
        ensures
            r@ == self.block_spec(BlockStyle::SubHeader, children@, opt_view(text)),
    ;

    fn sub_sub_header_block(&self, children: T, text: Option<T>) -> (r: T)
        ensures
            r@ == self.block_spec(BlockStyle::SubSubHeader, children@, opt_view(text)),
    ;

    fn divider_block(&self, children: T) -> (r: T)
        ensures
            r@ == self.divider_spec(children@),
    ;

    fn empty(&self) -> (r: T)
        ensures
            r@ == self.empty_spec(),
    ;
}

/// Draws text and the marks laid over it.
pub trait InlineRenderer<T: View> {
    spec fn text_spec(&self, text: Seq<char>) -> T::V;

    spec fn mark_spec(&self, style: InlineStyle, acc: T::V) -> T::V;

    fn text(&self, text: &str) -> (r: T)
        ensures
            r@ == self.text_spec(text@),
    ;

    fn bold(&self, acc: T) -> (r: T)
        ensures
            r@ == self.mark_spec(InlineStyle::Bold, acc@),
    ;

    fn italic(&self, acc: T) -> (r: T)
        ensures
            r@ == self.mark_spec(InlineStyle::Italic, acc@),
    ;

    fn underline(&self, acc: T) -> (r: T)
        ensures
            r@ == self.mark_spec(InlineStyle::Underline, acc@),
    ;

    fn strike(&self, acc: T) -> (r: T)
        ensures
            r@ == self.mark_spec(InlineStyle::Strike, acc@),
    ;

    fn link(&self, acc: T, link: &String) -> (r: T)
        ensures
            r@ == self.mark_spec(InlineStyle::Link(link@), acc@),
    ;

    fn code(&self, acc: T) -> (r: T)
        ensures
            r@ == self.mark_spec(InlineStyle::Code, acc@),
    ;

    fn highlight(&self, acc: T, color: &ColorType) -> (r: T)
        ensures
            r@ == self.mark_spec(InlineStyle::Highlight(*color), acc@),
    ;
}

/// Wraps runs of list items, and joins rendered pieces into one.
pub trait WrapperRenderer<T: View> {
    spec fn wrapper_spec(&self, kind: GroupKind, items: Seq<T::V>) -> T::V;

    spec fn collect_spec(&self, items: Seq<T::V>) -> T::V;

    fn bulleted_list_wrapper(&self, items: Vec<T>) -> (r: T)
        ensures
            r@ == self.wrapper_spec(GroupKind::Bulleted, seq_view(items@)),
    ;

    fn numbered_list_wrapper(&self, items: Vec<T>) -> (r: T)
        ensures
            r@ == self.wrapper_spec(GroupKind::Numbered, seq_view(items@)),
    ;

    fn collect(&self, items: Vec<T>) -> (r: T)
        ensures
            r@ == self.collect_spec(seq_view(items@)),
    ;
}

/// How an id of a child list takes part in grouping.
#[derive(Debug, Clone, Copy, PartialEq, Eq, Structural)]
pub enum Slot {
    /// Not in the table: it adds nothing and leaves an open group open.
    Absent,
    /// In the table and drawn on its own: a typed block of a kind that is
    /// not grouped, or an entry that could not be typed.
    Plain,
    /// A typed list item of the given kind.
    Grouped(GroupKind),
}

/// A piece of a child list: a run of list items of one kind, or one id.
pub enum Segment {
    Group(GroupKind, Seq<Seq<char>>),
    Single(Seq<char>),
}

/// The state of the left-to-right grouping walk: finished segments, and the
/// ids of the open group with their kind.
pub struct Grouping {
    pub done: Seq<Segment>,
    pub open: Seq<Seq<char>>,
    pub kind: GroupKind,
}

pub open spec fn group_kind(b: RootBlockType) -> Option<GroupKind> {
    match b {
        RootBlockType::BulletedList { .. } => Option::Some(GroupKind::Bulleted),
        RootBlockType::NumberedList { .. } => Option::Some(GroupKind::Numbered),
        _ => Option::None,
    }
}

pub open spec fn slot_of(table: Seq<(String, BlockType)>, id: Seq<char>) -> Slot {
    match entry(table, id) {
        Option::None => Slot::Absent,
        Option::Some(e) => match e.value {
            Either::Left(v) => match group_kind(v.block) {
                Option::Some(k) => Slot::Grouped(k),
                Option::None => Slot::Plain,
            },
            Either::Right(_) => Slot::Plain,
        },
    }
}

/// The finished segments once the open group, if any, is closed.
pub open spec fn close(st: Grouping) -> Seq<Segment> {
    if st.open.len() == 0 {
        st.done
    } else {
        st.done.push(Segment::Group(st.kind, st.open))
    }
}

/// One step of the walk. A list item joins the open group when that group is
/// empty or of its kind; one of the other kind closes it and opens its own.
/// Any other present id closes the open group and stands alone.
pub open spec fn step(table: Seq<(String, BlockType)>, st: Grouping, id: Seq<char>) -> Grouping {
    match slot_of(table, id) {
        Slot::Absent => st,
        Slot::Grouped(k) => if st.open.len() == 0 || st.kind == k {
            Grouping { done: st.done, open: st.open.push(id), kind: k }
        } else {
            Grouping { done: close(st), open: seq![id], kind: k }
        },
        Slot::Plain => Grouping {
            done: close(st).push(Segment::Single(id)),
            open: Seq::empty(),
            kind: st.kind,
        },
    }
}

pub open spec fn grouping(table: Seq<(String, BlockType)>, ids: Seq<Seq<char>>) -> Grouping
    decreases ids.len(),
{
    if ids.len() == 0 {
        Grouping { done: Seq::empty(), open: Seq::empty(), kind: GroupKind::Bulleted }
    } else {
        step(table, grouping(table, ids.drop_last()), ids.last())
    }
}

/// The segments into which a list of child ids falls.
pub open spec fn plan(table: Seq<(String, BlockType)>, ids: Seq<Seq<char>>) -> Seq<Segment> {
    close(grouping(table, ids))
}

pub open spec fn ids_view(ids: Seq<String>) -> Seq<Seq<char>> {
    ids.map_values(|s: String| s@)
}

pub open spec fn child_ids(v: BaseValueType) -> Seq<Seq<char>> {
    match v.content {
        Option::Some(c) => ids_view(c@),
        Option::None => Seq::empty(),
    }
}

/// Renders a block table through three capability objects. Blocks nested
/// deeper than the table has entries, which only a cycle of `content`
/// references allows, render as empty.
pub struct Renderer<'b, R, B, I, W> {
    pub blocks: &'b BlockTableType,
    pub block_renderer: B,
    pub inline_renderer: I,
    pub wrapper_renderer: W,
    pub p: PhantomData<R>,
}

impl<'b, R: View, B, I, W> Renderer<'b, R, B, I, W> where
    B: BlockRenderer<R>,
    I: InlineRenderer<R>,
    W: WrapperRenderer<R>,
 {
    pub open spec fn table(&self) -> Seq<(String, BlockType)> {
        self.blocks@
    }

    pub open spec fn empty_spec(&self) -> R::V {
        self.block_renderer.empty_spec()
    }

    /// A block, rendered with `depth` levels of nesting left.
    pub open spec fn spec_render(&self, id: Seq<char>, depth: nat) -> R::V
        decreases depth, 0nat, 0nat,
    {
        if depth == 0 {
            self.empty_spec()
        } else {
            match entry(self.table(), id) {
                Option::Some(e) => match e.value {
                    Either::Left(v) => self.spec_block(
                        v.block,
                        self.spec_children(child_ids(v), (depth - 1) as nat),
                    ),
                    Either::Right(_) => self.empty_spec(),
                },
                Option::None => self.empty_spec(),
            }
        }
    }

    /// A list of child ids: its segments rendered in order, then collected.
    pub open spec fn spec_children(&self, ids: Seq<Seq<char>>, depth: nat) -> R::V
        decreases depth, 3nat, 0nat,
    {
        self.wrapper_renderer.collect_spec(self.spec_segments(plan(self.table(), ids), depth))
    }

    pub open spec fn spec_segments(&self, segs: Seq<Segment>, depth: nat) -> Seq<R::V>
        decreases depth, 2nat, segs.len(),
    {
        if segs.len() == 0 {
            Seq::empty()
        } else {
            let head = self.spec_segments(segs.drop_last(), depth);
            match segs.last() {
                Segment::Single(id) => head.push(self.spec_render(id, depth)),
                Segment::Group(k, m) => head.push(self.spec_wrapper(k, m, depth)),
            }
        }
    }

    /// A run of list items inside the wrapper of their kind; nothing when empty.
    pub open spec fn spec_wrapper(&self, kind: GroupKind, ids: Seq<Seq<char>>, depth: nat) -> R::V
        decreases depth, 1nat, ids.len() + 1,
    {
        if ids.len() == 0 {
            self.empty_spec()
        } else {
            self.wrapper_renderer.wrapper_spec(kind, self.spec_members(ids, depth))
        }
    }

    pub open spec fn spec_members(&self, ids: Seq<Seq<char>>, depth: nat) -> Seq<R::V>
        decreases depth, 1nat, ids.len(),
    {
        if ids.len() == 0 {
            Seq::empty()
        } else {
            self.spec_members(ids.drop_last(), depth).push(self.spec_render(ids.last(), depth))
        }
    }

    pub open spec fn spec_title(&self, p: Option<TextProperties>) -> Option<R::V> {
        match p {
            Option::Some(t) => Option::Some(self.spec_text(t.title@)),
            Option::None => Option::None,
        }
    }

    /// What the block renderer is asked for, given a block's kind and its
    /// rendered children.
    pub open spec fn spec_block(&self, b: RootBlockType, children: R::V) -> R::V {
        let br = self.block_renderer;
        match b {
            RootBlockType::Page { properties, .. } => br.block_spec(
                BlockStyle::Page,
                children,
                Option::Some(self.spec_text(properties.title@)),
            ),
            RootBlockType::Text { properties } => br.block_spec(BlockStyle::Text, children, self.spec_title(properties)),
            RootBlockType::BulletedList { properties } => br.block_spec(BlockStyle::BulletedList, children, self.spec_title(properties)),
            RootBlockType::NumberedList { properties } => br.block_spec(BlockStyle::NumberedList, children, self.spec_title(properties)),
            RootBlockType::Quote { properties } => br.block_spec(BlockStyle::Quote, children, self.spec_title(properties)),
            RootBlockType::Header { properties } => br.block_spec(BlockStyle::Header, children, self.spec_title(properties)),
            RootBlockType::SubHeader { properties } => br.block_spec(BlockStyle::SubHeader, children, self.spec_title(properties)),
            RootBlockType::SubSubHeader { properties } => br.block_spec(BlockStyle::SubSubHeader, children, self.spec_title(properties)),
            RootBlockType::Toggle { properties } => br.block_spec(BlockStyle::Toggle, children, self.spec_title(properties)),
            RootBlockType::Divider => br.divider_spec(children),
            _ => self.empty_spec(),
        }
    }

    /// Spans folded from the left, each collected onto what came before,
    /// starting from empty.
    pub open spec fn spec_text(&self, spans: Seq<FormattedText>) -> R::V
        decreases spans.len(),
    {
        if spans.len() == 0 {
            self.empty_spec()
        } else {
            self.wrapper_renderer.collect_spec(
                seq![self.spec_text(spans.drop_last()), self.spec_span(spans.last())],
            )
        }
    }

    pub open spec fn spec_span(&self, s: FormattedText) -> R::V {
        let plain = self.inline_renderer.text_spec(s.text@);
        match s.formatting {
            Option::Some(f) => self.spec_marks(plain, f@),
            Option::None => plain,
        }
    }

    /// Marks applied in order: the first wraps the text, each next one wraps
    /// the result so far.
    pub open spec fn spec_marks(&self, acc: R::V, marks: Seq<FormatType>) -> R::V
        decreases marks.len(),
    {
        if marks.len() == 0 {
            acc
        } else {
            self.spec_mark(self.spec_marks(acc, marks.drop_last()), marks.last())
        }
    }

    pub open spec fn spec_mark(&self, acc: R::V, m: FormatType) -> R::V {
        let ir = self.inline_renderer;
        match m {
            FormatType::NoContext(f) => match f {
                NoContextFormat::Bold => ir.mark_spec(InlineStyle::Bold, acc),
                NoContextFormat::Italic => ir.mark_spec(InlineStyle::Italic, acc),
                NoContextFormat::Strike => ir.mark_spec(InlineStyle::Strike, acc),
                NoContextFormat::Underline => ir.mark_spec(InlineStyle::Underline, acc),
                NoContextFormat::Code => ir.mark_spec(InlineStyle::Code, acc),
                NoContextFormat::Unknown => acc,
            },
            FormatType::Context(f) => match f {
                ContextFormat::Link(href) => ir.mark_spec(InlineStyle::Link(href@), acc),
                ContextFormat::Highlight(c) => ir.mark_spec(InlineStyle::Highlight(c), acc),
                ContextFormat::Unknown => acc,
            },
        }
    }

    /// Creates a renderer over a block table and three capability objects.
    pub fn new(
        blocks: &'b BlockTableType,
        block_renderer: B,
        inline_renderer: I,
        wrapper_renderer: W,
    ) -> (r: Self)
        ensures
            r.blocks == blocks,
            r.block_renderer == block_renderer,
            r.inline_renderer == inline_renderer,
            r.wrapper_renderer == wrapper_renderer,
    {
        Renderer { blocks, block_renderer, inline_renderer, wrapper_renderer, p: PhantomData }
    }

    fn slot(&self, id: &str) -> (r: Slot)
        ensures
            r == slot_of(self.table(), id@),
    {
        match find_block(self.blocks, id) {
            Option::None => Slot::Absent,
            Option::Some(i) => match &self.blocks[i].1.value {
                Either::Left(v) => match &v.block {
                    RootBlockType::BulletedList { .. } => Slot::Grouped(GroupKind::Bulleted),
                    RootBlockType::NumberedList { .. } => Slot::Grouped(GroupKind::Numbered),
                    _ => Slot::Plain,
                },
                Either::Right(_) => Slot::Plain,
            },
        }
    }

    fn render_wrapper(&self, group: &Vec<String>, kind: GroupKind, depth: usize) -> (r: R)
        ensures
            r@ == self.spec_wrapper(kind, ids_view(group@), depth as nat),
        decreases depth, 1nat, group@.len() + 1,
    {
        if group.len() == 0 {
            return self.block_renderer.empty();
        }
        let mut items: Vec<R> = Vec::new();
        let mut i: usize = 0;
        assert(seq_view(items@) =~= Seq::<R::V>::empty());
        while i < group.len()
            invariant
                i <= group@.len(),
                seq_view(items@) == self.spec_members(ids_view(group@.subrange(0, i as int)), depth as nat),
            decreases group@.len() - i,
        {
            let ghost before = ids_view(group@.subrange(0, i as int));
            assert(ids_view(group@.subrange(0, i + 1)).drop_last() =~= before);
            let item = self.render_at(group[i].as_str(), depth);
            let ghost old_items = items@;
            items.push(item);
            assert(seq_view(items@) =~= seq_view(old_items).push(item@));
            i = i + 1;
        }
        assert(group@.subrange(0, group@.len() as int) =~= group@);
        match kind {
            GroupKind::Bulleted => self.wrapper_renderer.bulleted_list_wrapper(items),
            GroupKind::Numbered => self.wrapper_renderer.numbered_list_wrapper(items),
        }
    }

    /// Renders a list of child ids: list items of one kind that follow each
    /// other are wrapped together, any other present id is rendered alone, and
    /// ids missing from the table add nothing. The pieces are collected in order.
    pub fn render_children(&self, block_ids: &Vec<String>) -> (r: R)
        ensures
            r@ == self.spec_children(ids_view(block_ids@), self.table().len()),
    {
        self.children_at(block_ids, self.blocks.len())
    }

    fn children_at(&self, block_ids: &Vec<String>, depth: usize) -> (r: R)
        ensures
            r@ == self.spec_children(ids_view(block_ids@), depth as nat),
        decreases depth, 3nat, 0nat,
    {
        let ghost table = self.table();
        let mut rendered: Vec<R> = Vec::new();
        assert(seq_view(rendered@) =~= Seq::<R::V>::empty());
        let mut open: Vec<String> = Vec::new();
        let mut kind = GroupKind::Bulleted;
        let mut i: usize = 0;
        while i < block_ids.len()
            invariant
                i <= block_ids@.len(),
                table == self.table(),
                grouping(table, ids_view(block_ids@.subrange(0, i as int))).open == ids_view(open@),
                grouping(table, ids_view(block_ids@.subrange(0, i as int))).kind == kind,
                seq_view(rendered@) == self.spec_segments(
                    grouping(table, ids_view(block_ids@.subrange(0, i as int))).done,
                    depth as nat,
                ),
            decreases block_ids@.len() - i,
        {
            let ghost st = grouping(table, ids_view(block_ids@.subrange(0, i as int)));
            let ghost id = block_ids@[i as int]@;
            assert(ids_view(block_ids@.subrange(0, i + 1)).drop_last() =~= ids_view(
                block_ids@.subrange(0, i as int),
            ));
            assert(ids_view(block_ids@.subrange(0, i + 1)).last() == id);
            let id_ref = block_ids[i].as_str();
            match self.slot(id_ref) {
                Slot::Absent => {},
                Slot::Grouped(k) => {
                    if open.len() == 0 || kind == k {
                        open.push(block_ids[i].clone());
                        assert(ids_view(open@) =~= st.open.push(id));
                        kind = k;
                    } else {
                        let w = self.render_wrapper(&open, kind, depth);
                        assert(close(st).drop_last() =~= st.done);
                        let ghost old_r = rendered@;
                        rendered.push(w);
                        assert(seq_view(rendered@) =~= seq_view(old_r).push(w@));
                        open = Vec::new();
                        open.push(block_ids[i].clone());
                        assert(ids_view(open@) =~= seq![id]);
                        kind = k;
                    }
                },
                Slot::Plain => {
                    if open.len() > 0 {
                        let w = self.render_wrapper(&open, kind, depth);
                        assert(close(st).drop_last() =~= st.done);
                        let ghost old_r = rendered@;
                        rendered.push(w);
                        assert(seq_view(rendered@) =~= seq_view(old_r).push(w@));
                        open = Vec::new();
                    }
                    assert(seq_view(rendered@) == self.spec_segments(close(st), depth as nat));
                    assert(close(st).push(Segment::Single(id)).drop_last() =~= close(st));
                    let item = self.render_at(id_ref, depth);
                    let ghost old_r = rendered@;
                    rendered.push(item);
                    assert(seq_view(rendered@) =~= seq_view(old_r).push(item@));
                    assert(ids_view(open@) =~= Seq::<Seq<char>>::empty());
                },
            }
            i = i + 1;
        }
        assert(block_ids@.subrange(0, block_ids@.len() as int) =~= block_ids@);
        let ghost st = grouping(table, ids_view(block_ids@));
        if open.len() > 0 {
            let w = self.render_wrapper(&open, kind, depth);
            assert(close(st).drop_last() =~= st.done);
            let ghost old_r = rendered@;
            rendered.push(w);
            assert(seq_view(rendered@) =~= seq_view(old_r).push(w@));
        }
        self.wrapper_renderer.collect(rendered)
    }

    /// Renders spans of formatted text, collecting each onto the result so far.
    pub fn render_text(&self, text: &Vec<FormattedText>) -> (r: R)
        ensures
            r@ == self.spec_text(text@),
    {
        let mut acc = self.block_renderer.empty();
        let mut i: usize = 0;
        while i < text.len()
            invariant
                i <= text@.len(),
                acc@ == self.spec_text(text@.subrange(0, i as int)),
            decreases text@.len() - i,
        {
            assert(text@.subrange(0, i + 1).drop_last() =~= text@.subrange(0, i as int));
            let piece = self.render_span(&text[i]);
            let mut pair: Vec<R> = Vec::new();
            pair.push(acc);
            pair.push(piece);
            assert(seq_view(pair@) =~= seq![self.spec_text(text@.subrange(0, i as int)), self.spec_span(text@[i as int])]);
            acc = self.wrapper_renderer.collect(pair);
            i = i + 1;
        }
        assert(text@.subrange(0, text@.len() as int) =~= text@);
        acc
    }

    fn render_span(&self, span: &FormattedText) -> (r: R)
        ensures
            r@ == self.spec_span(*span),
    {
        let plain = self.inline_renderer.text(span.text.as_str());
        match &span.formatting {
            Option::None => plain,
            Option::Some(marks) => {
                let mut acc = plain;
                let mut i: usize = 0;
                while i < marks.len()
                    invariant
                        i <= marks@.len(),
                        acc@ == self.spec_marks(self.inline_renderer.text_spec(span.text@), marks@.subrange(0, i as int)),
                    decreases marks@.len() - i,
                {
                    assert(marks@.subrange(0, i + 1).drop_last() =~= marks@.subrange(0, i as int));
                    acc = self.apply_mark(acc, &marks[i]);
                    i = i + 1;
                }
                assert(marks@.subrange(0, marks@.len() as int) =~= marks@);
                acc
            },
        }
    }

    fn apply_mark(&self, acc: R, mark: &FormatType) -> (r: R)
        ensures
            r@ == self.spec_mark(acc@, *mark),
    {
        let ir = &self.inline_renderer;
        match mark {
            FormatType::NoContext(f) => match f {
                NoContextFormat::Bold => ir.bold(acc),
                NoContextFormat::Italic => ir.italic(acc),
                NoContextFormat::Strike => ir.strike(acc),
                NoContextFormat::Underline => ir.underline(acc),
                NoContextFormat::Code => ir.code(acc),
                NoContextFormat::Unknown => acc,
            },
            FormatType::Context(f) => match f {
                ContextFormat::Link(href) => ir.link(acc, href),
                ContextFormat::Highlight(c) => ir.highlight(acc, c),
                ContextFormat::Unknown => acc,
            },
        }
    }

    fn render_title(&self, p: &Option<TextProperties>) -> (r: Option<R>)
        ensures
            opt_view(r) == self.spec_title(*p),
    {
        match p {
            Option::Some(t) => Option::Some(self.render_text(&t.title)),
            Option::None => Option::None,
        }
    }

    fn dispatch(&self, b: &RootBlockType, children: R) -> (r: R)
        ensures
            r@ == self.spec_block(*b, children@),
    {
        let br = &self.block_renderer;
        match b {
            RootBlockType::Page { properties, .. } => {
                let t = self.render_text(&properties.title);
                br.page_block(children, Option::Some(t))
            },
            RootBlockType::Text { properties } => br.text_block(children, self.render_title(properties)),
            RootBlockType::BulletedList { properties } => br.bulleted_list_block(children, self.render_title(properties)),
            RootBlockType::NumberedList { properties } => br.numbered_list_block(children, self.render_title(properties)),
            RootBlockType::Quote { properties } => br.quote_block(children, self.render_title(properties)),
            RootBlockType::Header { properties } => br.header_block(children, self.render_title(properties)),
            RootBlockType::SubHeader { properties } => br.sub_header_block(children, self.render_title(properties)),
            RootBlockType::SubSubHeader { properties } => br.sub_sub_header_block(children, self.render_title(properties)),
            RootBlockType::Toggle { properties } => br.toggle_block(children, self.render_title(properties)),
            RootBlockType::Divider => br.divider_block(children),
            _ => br.empty(),
        }
    }

    /// Renders the block `block_id` with its children. A missing id, an entry
    /// that could not be typed, or a kind with no drawing renders as empty.
    pub fn render(&self, block_id: &str) -> (r: R)
        ensures
            r@ == self.spec_render(block_id@, self.table().len()),
    {
        self.render_at(block_id, self.blocks.len())
    }

    fn render_at(&self, block_id: &str, depth: usize) -> (r: R)
        ensures
            r@ == self.spec_render(block_id@, depth as nat),
        decreases depth, 0nat, 0nat,
    {
        if depth == 0 {
            return self.block_renderer.empty();
        }
        match find_block(self.blocks, block_id) {
            Option::None => self.block_renderer.empty(),
            Option::Some(i) => match &self.blocks[i].1.value {
                Either::Left(v) => {
                    let children = match &v.content {
                        Option::Some(c) => self.children_at(c, depth - 1),
                        Option::None => {
                            let none: Vec<String> = Vec::new();
                            assert(ids_view(none@) =~= Seq::<Seq<char>>::empty());
                            self.children_at(&none, depth - 1)
                        },
                    };
                    self.dispatch(&v.block, children)
                },
                Either::Right(_) => self.block_renderer.empty(),
            },
        }
    }
}

} // verus!
