use vstd::prelude::*;
use vstd::string::*;
use crate::parser::ColorType;
use crate::renderer::{
    seq_view, BlockRenderer, BlockStyle, GroupKind, InlineRenderer, InlineStyle, WrapperRenderer,
};
use crate::templating::{
    a, attribute_text, b, class, code, collect, concat_all, details, div, empty, escaped, h1, h2, h3,
    hr, href, i, join_with, li, ol, option_include, p, q, span, strike, summary, tag_text, text, u,
    ul, Attribute, Tag, lemma_concat_one,
};

verus! {

/// The class that marks text highlighted in a color; none for `NoColor`.
pub open spec fn color_class_text(c: ColorType) -> Seq<char> {
    match c {
        ColorType::Gray => "notion-gray"@,
        ColorType::Brown => "notion-brown"@,
        ColorType::Orange => "notion-orange"@,
        ColorType::Yellow => "notion-yellow"@,
        ColorType::Teal => "notion-teal"@,
        ColorType::Blue => "notion-blue"@,
        ColorType::Purple => "notion-purple"@,
        ColorType::Pink => "notion-pink"@,
        ColorType::Red => "notion-red"@,
        ColorType::GrayBackground => "notion-gray_background"@,
        ColorType::BrownBackground => "notion-brown_background"@,
        ColorType::OrangeBackground => "notion-orange_background"@,
        ColorType::YellowBackground => "notion-yellow_background"@,
        ColorType::TealBackground => "notion-teal_background"@,
        ColorType::BlueBackground => "notion-blue_background"@,
        ColorType::PurpleBackground => "notion-purple_background"@,
        ColorType::PinkBackground => "notion-pink_background"@,
        ColorType::RedBackground => "notion-red_background"@,
        ColorType::NoColor => ""@,
    }
}

pub fn color_class_name(c: &ColorType) -> (r: &'static str)
    ensures
        r@ == color_class_text(*c),
{
    match c {
        ColorType::Gray => "notion-gray",
        ColorType::Brown => "notion-brown",
        ColorType::Orange => "notion-orange",
        ColorType::Yellow => "notion-yellow",
        ColorType::Teal => "notion-teal",
        ColorType::Blue => "notion-blue",
        ColorType::Purple => "notion-purple",
        ColorType::Pink => "notion-pink",
        ColorType::Red => "notion-red",
        ColorType::GrayBackground => "notion-gray_background",
        ColorType::BrownBackground => "notion-brown_background",
        ColorType::OrangeBackground => "notion-orange_background",
        ColorType::YellowBackground => "notion-yellow_background",
        ColorType::TealBackground => "notion-teal_background",
        ColorType::BlueBackground => "notion-blue_background",
        ColorType::PurpleBackground => "notion-purple_background",
        ColorType::PinkBackground => "notion-pink_background",
        ColorType::RedBackground => "notion-red_background",
        ColorType::NoColor => "",
    }
}

/// The class given to each style of titled block.
pub open spec fn style_class(s: BlockStyle) -> Seq<char> {
    match s {
        BlockStyle::Page => "notion-page-block"@,
        BlockStyle::Text => "notion-text"@,
        BlockStyle::BulletedList => "notion-bulleted_list-block"@,
        BlockStyle::NumberedList => "notion-bulleted_list-block"@,
        BlockStyle::Toggle => "notion-toggle-block"@,
        BlockStyle::Quote => "notion-quote-block"@,
        BlockStyle::Header => "notion-header-block"@,
        BlockStyle::SubHeader => "notion-sub_header-block"@,
        BlockStyle::SubSubHeader => "notion-sub_sub_header-block"@,
    }
}

/// The tag that holds the title of each style of titled block.
pub open spec fn style_root(s: BlockStyle) -> Seq<char> {
    match s {
        BlockStyle::Page => "h1"@,
        BlockStyle::Text => "p"@,
        BlockStyle::BulletedList => "li"@,
        BlockStyle::NumberedList => "li"@,
        BlockStyle::Toggle => "details"@,
        BlockStyle::Quote => "q"@,
        BlockStyle::Header => "h1"@,
        BlockStyle::SubHeader => "h2"@,
        BlockStyle::SubSubHeader => "h3"@,
    }
}

pub open spec fn title_or_empty(text: Option<Seq<char>>) -> Seq<char> {
    match text {
        Option::Some(t) => t,
        Option::None => Seq::empty(),
    }
}

/// A titled block: the title in its root tag with the style's class, then
/// the children in a `div` (for a toggle: the title in a `summary` inside
/// `details`, and the children in a `summary`).
pub open spec fn block_text(s: BlockStyle, children: Seq<char>, text: Option<Seq<char>>) -> Seq<char> {
    let cls = attribute_text("class"@, style_class(s));
    let t = title_or_empty(text);
    if s == BlockStyle::Toggle {
        tag_text("details"@, cls, tag_text("summary"@, Seq::empty(), t)) + tag_text("summary"@, Seq::empty(), children)
    } else {
        tag_text(style_root(s), cls, t) + tag_text("div"@, Seq::empty(), children)
    }
}

/// Draws blocks as markup.
pub struct Blocks {}

/// Draws text and marks as markup.
pub struct Inline {}

/// Wraps list runs in `ul` / `ol` and joins markup.
pub struct Wrapper {}

fn one_attribute(x: Attribute) -> (r: Vec<Attribute>)
    ensures
        join_with(seq_view(r@), " "@) == x@,
{
    let mut v: Vec<Attribute> = Vec::new();
    v.push(x);
    assert(seq_view(v@) =~= seq![x@]);
    v
}

fn one_tag(x: Tag) -> (r: Vec<Tag>)
    ensures
        concat_all(seq_view(r@)) == x@,
{
    let mut v: Vec<Tag> = Vec::new();
    v.push(x);
    assert(seq_view(v@) =~= seq![x@]);
    proof { lemma_concat_one(x@); }
    v
}

fn no_attributes() -> (r: Vec<Attribute>)
    ensures
        join_with(seq_view(r@), " "@) == Seq::<char>::empty(),
{
    let v: Vec<Attribute> = Vec::new();
    assert(seq_view(v@) =~= Seq::<Seq<char>>::empty());
    v
}

fn pair(x: Tag, y: Tag) -> (r: Tag)
    ensures
        r@ == x@ + y@,
{
    let mut v: Vec<Tag> = Vec::new();
    v.push(x);
    v.push(y);
    assert(seq_view(v@) =~= seq![x@, y@]);
    assert(seq_view(v@).drop_last() =~= seq![x@]);
    proof { lemma_concat_one(x@); }
    collect(v)
}

/// The title in `root` with class `c`, then the children in a `div`.
fn titled(children: Tag, text: Option<Tag>, c: &str, style: BlockStyle) -> (r: Tag)
    requires
        style != BlockStyle::Toggle,
        c@ == style_class(style),
    ensures
        r@ == block_text(style, children@, match text {
            Option::Some(t) => Option::Some(t@),
            Option::None => Option::None,
        }),
{
    let title = option_include(text);
    let head = match style {
        BlockStyle::Page => h1(one_attribute(class(c)), one_tag(title)),
        BlockStyle::Text => p(one_attribute(class(c)), one_tag(title)),
        BlockStyle::BulletedList => li(one_attribute(class(c)), one_tag(title)),
        BlockStyle::NumberedList => li(one_attribute(class(c)), one_tag(title)),
        BlockStyle::Quote => q(one_attribute(class(c)), one_tag(title)),
        BlockStyle::Header => h1(one_attribute(class(c)), one_tag(title)),
        BlockStyle::SubHeader => h2(one_attribute(class(c)), one_tag(title)),
        _ => h3(one_attribute(class(c)), one_tag(title)),
    };
    let body = div(no_attributes(), one_tag(children));
    pair(head, body)
}

impl BlockRenderer<Tag> for Blocks {
    open spec fn block_spec(&self, style: BlockStyle, children: Seq<char>, text: Option<Seq<char>>) -> Seq<char> {
        block_text(style, children, text)
    }

    open spec fn divider_spec(&self, children: Seq<char>) -> Seq<char> {
        tag_text("hr"@, attribute_text("class"@, "notion-divider-block"@), children)
    }

    open spec fn empty_spec(&self) -> Seq<char> {
        Seq::empty()
    }

    fn page_block(&self, children: Tag, text: Option<Tag>) -> (r: Tag) {
        titled(children, text, "notion-page-block", BlockStyle::Page)
    }

    fn text_block(&self, children: Tag, text: Option<Tag>) -> (r: Tag) {
        titled(children, text, "notion-text", BlockStyle::Text)
    }

    fn bulleted_list_block(&self, children: Tag, text: Option<Tag>) -> (r: Tag) {
        titled(children, text, "notion-bulleted_list-block", BlockStyle::BulletedList)
    }

    fn numbered_list_block(&self, children: Tag, text: Option<Tag>) -> (r: Tag) {
        titled(children, text, "notion-bulleted_list-block", BlockStyle::NumberedList)
    }

    fn toggle_block(&self, children: Tag, text: Option<Tag>) -> (r: Tag) {
        let title = option_include(text);
        let head = details(one_attribute(class("notion-toggle-block")), one_tag(summary(no_attributes(), one_tag(title))));
        let body = summary(no_attributes(), one_tag(children));
        pair(head, body)
    }

    fn quote_block(&self, children: Tag, text: Option<Tag>) -> (r: Tag) {
        titled(children, text, "notion-quote-block", BlockStyle::Quote)
    }

    fn header_block(&self, children: Tag, text: Option<Tag>) -> (r: Tag) {
        titled(children, text, "notion-header-block", BlockStyle::Header)
    }

    fn sub_header_block(&self, children: Tag, text: Option<Tag>) -> (r: Tag) {
        titled(children, text, "notion-sub_header-block", BlockStyle::SubHeader)
    }

    fn sub_sub_header_block(&self, children: Tag, text: Option<Tag>) -> (r: Tag) {
        titled(children, text, "notion-sub_sub_header-block", BlockStyle::SubSubHeader)
    }

    fn divider_block(&self, children: Tag) -> (r: Tag) {
        hr(one_attribute(class("notion-divider-block")), one_tag(children))
    }

    fn empty(&self) -> (r: Tag) {
        empty()
    }
}

/// The tag and class that each mark puts around what it wraps.
pub open spec fn mark_text(style: InlineStyle, acc: Seq<char>) -> Seq<char> {
    match style {
        InlineStyle::Bold => tag_text("b"@, attribute_text("class"@, "notion-bold"@), acc),
        InlineStyle::Italic => tag_text("i"@, attribute_text("class"@, "notion-italic"@), acc),
        InlineStyle::Underline => tag_text("u"@, attribute_text("class"@, "notion-underline"@), acc),
        InlineStyle::Strike => tag_text("strike"@, attribute_text("class"@, "notion-strike"@), acc),
        InlineStyle::Code => tag_text("code"@, attribute_text("class"@, "notion-code-inline"@), acc),
        InlineStyle::Link(h) => tag_text(
            "a"@,
            attribute_text("class"@, "notion-link"@) + " "@ + attribute_text("href"@, h),
            acc,
        ),
        InlineStyle::Highlight(c) => tag_text("span"@, attribute_text("class"@, color_class_text(c)), acc),
    }
}

impl InlineRenderer<Tag> for Inline {
    open spec fn text_spec(&self, t: Seq<char>) -> Seq<char> {
        escaped(t)
    }

    open spec fn mark_spec(&self, style: InlineStyle, acc: Seq<char>) -> Seq<char> {
        mark_text(style, acc)
    }

    fn text(&self, t: &str) -> (r: Tag) {
        text(t)
    }

    fn bold(&self, acc: Tag) -> (r: Tag) {
        b(one_attribute(class("notion-bold")), one_tag(acc))
    }

    fn italic(&self, acc: Tag) -> (r: Tag) {
        i(one_attribute(class("notion-italic")), one_tag(acc))
    }

    fn underline(&self, acc: Tag) -> (r: Tag) {
        u(one_attribute(class("notion-underline")), one_tag(acc))
    }

    fn strike(&self, acc: Tag) -> (r: Tag) {
        strike(one_attribute(class("notion-strike")), one_tag(acc))
    }

    fn code(&self, acc: Tag) -> (r: Tag) {
        code(one_attribute(class("notion-code-inline")), one_tag(acc))
    }

    fn link(&self, acc: Tag, link: &String) -> (r: Tag) {
        let mut attrs: Vec<Attribute> = Vec::new();
        let c = class("notion-link");
        let h = href(link.as_str());
        let ghost cv = c@;
        let ghost hv = h@;
        attrs.push(c);
        attrs.push(h);
        assert(seq_view(attrs@) =~= seq![cv, hv]);
        assert(seq_view(attrs@).drop_last() =~= seq![cv]);
        assert(join_with(seq![cv], " "@) == cv);
        assert(join_with(seq_view(attrs@), " "@) == cv + " "@ + hv);
        a(attrs, one_tag(acc))
    }

    fn highlight(&self, acc: Tag, color: &ColorType) -> (r: Tag) {
        span(one_attribute(class(color_class_name(color))), one_tag(acc))
    }
}

impl WrapperRenderer<Tag> for Wrapper {
    open spec fn wrapper_spec(&self, kind: GroupKind, items: Seq<Seq<char>>) -> Seq<char> {
        match kind {
            GroupKind::Bulleted => tag_text("ul"@, attribute_text("class"@, "notion-bulleted_list-wrapper"@), concat_all(items)),
            GroupKind::Numbered => tag_text("ol"@, attribute_text("class"@, "notion-numbered_list-wrapper"@), concat_all(items)),
        }
    }

    open spec fn collect_spec(&self, items: Seq<Seq<char>>) -> Seq<char> {
        concat_all(items)
    }

    fn bulleted_list_wrapper(&self, items: Vec<Tag>) -> (r: Tag) {
        ul(one_attribute(class("notion-bulleted_list-wrapper")), items)
    }

    fn numbered_list_wrapper(&self, items: Vec<Tag>) -> (r: Tag) {
        ol(one_attribute(class("notion-numbered_list-wrapper")), items)
    }

    fn collect(&self, items: Vec<Tag>) -> (r: Tag) {
        collect(items)
    }
}

} // verus!

verus! {

proof fn lemma_concat_split(s1: Seq<Seq<char>>, s2: Seq<Seq<char>>)
    ensures
        concat_all(s1 + s2) == concat_all(s1) + concat_all(s2),
    decreases s2.len(),
{
    if s2.len() == 0 {
        assert(s1 + s2 =~= s1);
        assert(concat_all(s1) + Seq::<char>::empty() =~= concat_all(s1));
    } else {
        lemma_concat_split(s1, s2.drop_last());
        assert((s1 + s2).drop_last() =~= s1 + s2.drop_last());
        assert((s1 + s2).last() == s2.last());
        assert(concat_all(s1) + concat_all(s2.drop_last()) + s2.last() =~= concat_all(s1) + (concat_all(
            s2.drop_last(),
        ) + s2.last()));
    }
}

/// Collecting no pieces gives the block renderer's empty value.
pub proof fn lemma_collect_nothing_is_empty(w: Wrapper, bl: Blocks)
    ensures
        w.collect_spec(Seq::empty()) == bl.empty_spec(),
{
}

/// Collecting is associative: collecting a whole list gives what collecting
/// its two halves, each collected first, gives.
pub proof fn lemma_collect_associative(w: Wrapper, s1: Seq<Seq<char>>, s2: Seq<Seq<char>>)
    ensures
        w.collect_spec(s1 + s2) == w.collect_spec(seq![w.collect_spec(s1), w.collect_spec(s2)]),
{
    lemma_concat_split(s1, s2);
    lemma_concat_split(seq![concat_all(s1)], seq![concat_all(s2)]);
    assert(seq![concat_all(s1)] + seq![concat_all(s2)] =~= seq![concat_all(s1), concat_all(s2)]);
    lemma_concat_one(concat_all(s1));
    lemma_concat_one(concat_all(s2));
}

} // verus!
