use vstd::prelude::*;
use vstd::string::*;
use crate::json::same_text;
use crate::renderer::seq_view;

verus! {

/// One attribute of a tag, as its `key="value"` text.
#[derive(Debug)]
pub struct Attribute(pub String);

/// A piece of markup text.
#[derive(Debug)]
pub struct Tag(pub String);

impl View for Attribute {
    type V = Seq<char>;

    open spec fn view(&self) -> Seq<char> {
        self.0@
    }
}

impl View for Tag {
    type V = Seq<char>;

    open spec fn view(&self) -> Seq<char> {
        self.0@
    }
}

impl Attribute {
    pub fn to_string(&self) -> (r: String)
        ensures
            r@ == self@,
    {
        self.0.clone()
    }
}

impl Tag {
    pub fn to_string(&self) -> (r: String)
        ensures
            r@ == self@,
    {
        self.0.clone()
    }
}

/// The pieces one after another.
pub open spec fn concat_all(parts: Seq<Seq<char>>) -> Seq<char>
    decreases parts.len(),
{
    if parts.len() == 0 {
        Seq::empty()
    } else {
        concat_all(parts.drop_last()) + parts.last()
    }
}

pub proof fn lemma_concat_one(x: Seq<char>)
    ensures
        concat_all(seq![x]) == x,
{
    assert(seq![x].drop_last() =~= Seq::<Seq<char>>::empty());
    assert(concat_all(Seq::<Seq<char>>::empty()) == Seq::<char>::empty());
    assert(Seq::<char>::empty() + x =~= x);
}

/// The pieces with `sep` between each two of them.
pub open spec fn join_with(parts: Seq<Seq<char>>, sep: Seq<char>) -> Seq<char>
    decreases parts.len(),
{
    if parts.len() == 0 {
        Seq::empty()
    } else if parts.len() == 1 {
        parts[0]
    } else {
        join_with(parts.drop_last(), sep) + sep + parts.last()
    }
}

pub open spec fn attribute_text(key: Seq<char>, value: Seq<char>) -> Seq<char> {
    key + "=\""@ + value + "\""@
}

pub fn attribute(key: &str, value: &str) -> (r: Attribute)
    ensures
        r@ == attribute_text(key@, value@),
{
    let mut s = String::from_str(key);
    s.append("=\"");
    s.append(value);
    s.append("\"");
    Attribute(s)
}

pub open spec fn style_pairs(input: Seq<(&str, &str)>) -> Seq<Seq<char>> {
    input.map_values(|p: (&str, &str)| p.0@ + ":"@ + p.1@)
}

/// A `style` attribute: each `name:value` pair, joined by `;`.
pub fn style_list(input: Vec<(&str, &str)>) -> (r: Attribute)
    ensures
        r@ == attribute_text("style"@, join_with(style_pairs(input@), ";"@)),
{
    let mut value = String::new();
    let mut i: usize = 0;
    while i < input.len()
        invariant
            i <= input@.len(),
            value@ == join_with(style_pairs(input@.subrange(0, i as int)), ";"@),
        decreases input@.len() - i,
    {
        let ghost before = style_pairs(input@.subrange(0, i as int));
        assert(style_pairs(input@.subrange(0, i + 1)).drop_last() =~= before);
        if i > 0 {
            value.append(";");
        } else {
            assert(before =~= Seq::<Seq<char>>::empty());
        }
        let (a, b) = input[i];
        value.append(a);
        value.append(":");
        value.append(b);
        i = i + 1;
    }
    assert(input@.subrange(0, input@.len() as int) =~= input@);
    attribute("style", value.as_str())
}

pub fn class(name: &str) -> (r: Attribute)
    ensures
        r@ == attribute_text("class"@, name@),
{
    attribute("class", name)
}

pub fn id(name: &str) -> (r: Attribute)
    ensures
        r@ == attribute_text("id"@, name@),
{
    attribute("id", name)
}

pub fn title(name: &str) -> (r: Attribute)
    ensures
        r@ == attribute_text("title"@, name@),
{
    attribute("title", name)
}

pub fn type_(name: &str) -> (r: Attribute)
    ensures
        r@ == attribute_text("type"@, name@),
{
    attribute("type", name)
}

pub fn value(name: &str) -> (r: Attribute)
    ensures
        r@ == attribute_text("value"@, name@),
{
    attribute("value", name)
}

pub fn placeholder(name: &str) -> (r: Attribute)
    ensures
        r@ == attribute_text("placeholder"@, name@),
{
    attribute("placeholder", name)
}

pub fn selected(name: &str) -> (r: Attribute)
    ensures
        r@ == attribute_text("selected"@, name@),
{
    attribute("selected", name)
}

pub fn href(name: &str) -> (r: Attribute)
    ensures
        r@ == attribute_text("href"@, name@),
{
    attribute("href", name)
}

/// Joins rendered tags into one, in order.
pub fn collect(t: Vec<Tag>) -> (r: Tag)
    ensures
        r@ == concat_all(seq_view(t@)),
{
    Tag(join_children(t))
}

/// The text that stands for a character in markup: the five characters with
/// a meaning in markup become entities, any other stays as it is.
pub open spec fn entity(c: char) -> Seq<char> {
    if c == '&' {
        "&amp;"@
    } else if c == '<' {
        "&lt;"@
    } else if c == '>' {
        "&gt;"@
    } else if c == '"' {
        "&quot;"@
    } else if c == '\'' {
        "&apos;"@
    } else {
        seq![c]
    }
}

/// Text with each character replaced by its `entity`.
pub open spec fn escaped(s: Seq<char>) -> Seq<char>
    decreases s.len(),
{
    if s.len() == 0 {
        Seq::empty()
    } else {
        escaped(s.drop_last()) + entity(s.last())
    }
}

/// The replacement for one matched special character; anything else gives nothing.
pub open spec fn entity_text(matched: Seq<char>) -> Seq<char> {
    if matched == "&"@ {
        "&amp;"@
    } else if matched == "<"@ {
        "&lt;"@
    } else if matched == ">"@ {
        "&gt;"@
    } else if matched == "\""@ {
        "&quot;"@
    } else if matched == "'"@ {
        "&apos;"@
    } else {
        Seq::empty()
    }
}

fn entity_for(matched: &str) -> (r: &'static str)
    ensures
        r@ == entity_text(matched@),
{
    proof {
        reveal_strlit("");
    }
    if same_text(matched, "&") {
        "&amp;"
    } else if same_text(matched, "<") {
        "&lt;"
    } else if same_text(matched, ">") {
        "&gt;"
    } else if same_text(matched, "\"") {
        "&quot;"
    } else if same_text(matched, "'") {
        "&apos;"
    } else {
        ""
    }
}

/// Relies on `regex::Regex::replace_all`: every match of the pattern, taken
/// left to right without overlap, is replaced by what the closure returns for
/// it, and the text between matches is kept. The pattern matches exactly the
/// five characters that `entity` replaces, one character per match.
#[verifier::external_body]
fn replace_special(t: &str) -> (r: String)
    ensures
        r@ == escaped(t@),
{
    let re = regex::Regex::new("(&|<|>|\"|')").unwrap();
    re.replace_all(t, |cap: &regex::Captures| entity_for(&cap[0])).to_string()
}

fn escape(t: &str) -> (r: String)
    ensures
        r@ == escaped(t@),
{
    replace_special(t)
}

/// Plain text, escaped for markup.
pub fn text(t: &str) -> (r: Tag)
    ensures
        r@ == escaped(t@),
{
    Tag(escape(t))
}

pub fn empty() -> (r: Tag)
    ensures
        r@ == Seq::<char>::empty(),
{
    Tag(String::new())
}

pub fn option_include(t: Option<Tag>) -> (r: Tag)
    ensures
        match t {
            Option::Some(x) => r@ == x@,
            Option::None => r@ == Seq::<char>::empty(),
        },
{
    match t {
        Option::Some(t) => t,
        Option::None => empty(),
    }
}

fn join_attributes(attributes: Vec<Attribute>) -> (r: String)
    ensures
        r@ == join_with(seq_view(attributes@), " "@),
{
    let mut out = String::new();
    let mut i: usize = 0;
    while i < attributes.len()
        invariant
            i <= attributes@.len(),
            out@ == join_with(seq_view(attributes@.subrange(0, i as int)), " "@),
        decreases attributes@.len() - i,
    {
        let ghost before = seq_view(attributes@.subrange(0, i as int));
        assert(seq_view(attributes@.subrange(0, i + 1)).drop_last() =~= before);
        if i > 0 {
            out.append(" ");
        } else {
            assert(before =~= Seq::<Seq<char>>::empty());
        }
        out.append(attributes[i].0.as_str());
        i = i + 1;
    }
    assert(attributes@.subrange(0, attributes@.len() as int) =~= attributes@);
    out
}

fn join_children(tags: Vec<Tag>) -> (r: String)
    ensures
        r@ == concat_all(seq_view(tags@)),
{
    let mut out = String::new();
    let mut i: usize = 0;
    while i < tags.len()
        invariant
            i <= tags@.len(),
            out@ == concat_all(seq_view(tags@.subrange(0, i as int))),
        decreases tags@.len() - i,
    {
        assert(seq_view(tags@.subrange(0, i + 1)).drop_last() =~= seq_view(tags@.subrange(0, i as int)));
        out.append(tags[i].0.as_str());
        i = i + 1;
    }
    assert(tags@.subrange(0, tags@.len() as int) =~= tags@);
    out
}

/// A tag `name` with the joined attributes and children: open and close
/// tags around children, a self-closing tag when there are attributes and no
/// children, and nothing at all when there is neither.
pub open spec fn tag_text(name: Seq<char>, attrs: Seq<char>, kids: Seq<char>) -> Seq<char> {
    if attrs.len() > 0 && kids.len() > 0 {
        "<"@ + name + " "@ + attrs + ">"@ + kids + "</"@ + name + ">"@
    } else if attrs.len() > 0 {
        "<"@ + name + " "@ + attrs + "/>"@
    } else if kids.len() > 0 {
        "<"@ + name + ">"@ + kids + "</"@ + name + ">"@
    } else {
        Seq::empty()
    }
}

/// What `tag` makes of its arguments' views.
pub open spec fn tag_of(name: Seq<char>, attributes: Seq<Attribute>, children: Seq<Tag>) -> Seq<char> {
    tag_text(name, join_with(seq_view(attributes), " "@), concat_all(seq_view(children)))
}

pub fn tag(name: &str, attributes: Vec<Attribute>, children: Vec<Tag>) -> (r: Tag)
    ensures
        r@ == tag_of(name@, attributes@, children@),
{
    let attributes = join_attributes(attributes);
    let children = join_children(children);
    let has_attributes = !attributes.as_str().is_empty();
    let has_children = !children.as_str().is_empty();
    let mut s = String::new();
    if has_attributes && has_children {
        s.append("<");
        s.append(name);
        s.append(" ");
        s.append(attributes.as_str());
        s.append(">");
        s.append(children.as_str());
        s.append("</");
        s.append(name);
        s.append(">");
    } else if has_attributes {
        s.append("<");
        s.append(name);
        s.append(" ");
        s.append(attributes.as_str());
        s.append("/>");
    } else if has_children {
        s.append("<");
        s.append(name);
        s.append(">");
        s.append(children.as_str());
        s.append("</");
        s.append(name);
        s.append(">");
    }
    Tag(s)
}

pub fn h1(attributes: Vec<Attribute>, children: Vec<Tag>) -> (r: Tag)
    ensures
        r@ == tag_of("h1"@, attributes@, children@),
{
    tag("h1", attributes, children)
}

pub fn h2(attributes: Vec<Attribute>, children: Vec<Tag>) -> (r: Tag)
    ensures
        r@ == tag_of("h2"@, attributes@, children@),
{
    tag("h2", attributes, children)
}

pub fn h3(attributes: Vec<Attribute>, children: Vec<Tag>) -> (r: Tag)
    ensures
        r@ == tag_of("h3"@, attributes@, children@),
{
    tag("h3", attributes, children)
}

pub fn p(attributes: Vec<Attribute>, children: Vec<Tag>) -> (r: Tag)
    ensures
        r@ == tag_of("p"@, attributes@, children@),
{
    tag("p", attributes, children)
}

pub fn div(attributes: Vec<Attribute>, children: Vec<Tag>) -> (r: Tag)
    ensures
        r@ == tag_of("div"@, attributes@, children@),
{
    tag("div", attributes, children)
}

pub fn li(attributes: Vec<Attribute>, children: Vec<Tag>) -> (r: Tag)
    ensures
        r@ == tag_of("li"@, attributes@, children@),
{
    tag("li", attributes, children)
}

pub fn details(attributes: Vec<Attribute>, children: Vec<Tag>) -> (r: Tag)
    ensures
        r@ == tag_of("details"@, attributes@, children@),
{
    tag("details", attributes, children)
}

pub fn summary(attributes: Vec<Attribute>, children: Vec<Tag>) -> (r: Tag)
    ensures
        r@ == tag_of("summary"@, attributes@, children@),
{
    tag("summary", attributes, children)
}

pub fn q(attributes: Vec<Attribute>, children: Vec<Tag>) -> (r: Tag)
    ensures
        r@ == tag_of("q"@, attributes@, children@),
{
    tag("q", attributes, children)
}

pub fn hr(attributes: Vec<Attribute>, children: Vec<Tag>) -> (r: Tag)
    ensures
        r@ == tag_of("hr"@, attributes@, children@),
{
    tag("hr", attributes, children)
}

pub fn b(attributes: Vec<Attribute>, children: Vec<Tag>) -> (r: Tag)
    ensures
        r@ == tag_of("b"@, attributes@, children@),
{
    tag("b", attributes, children)
}

pub fn i(attributes: Vec<Attribute>, children: Vec<Tag>) -> (r: Tag)
    ensures
        r@ == tag_of("i"@, attributes@, children@),
{
    tag("i", attributes, children)
}

pub fn u(attributes: Vec<Attribute>, children: Vec<Tag>) -> (r: Tag)
    ensures
        r@ == tag_of("u"@, attributes@, children@),
{
    tag("u", attributes, children)
}

pub fn strike(attributes: Vec<Attribute>, children: Vec<Tag>) -> (r: Tag)
    ensures
        r@ == tag_of("strike"@, attributes@, children@),
{
    tag("strike", attributes, children)
}

pub fn code(attributes: Vec<Attribute>, children: Vec<Tag>) -> (r: Tag)
    ensures
        r@ == tag_of("code"@, attributes@, children@),
{
    tag("code", attributes, children)
}

pub fn a(attributes: Vec<Attribute>, children: Vec<Tag>) -> (r: Tag)
    ensures
        r@ == tag_of("a"@, attributes@, children@),
{
    tag("a", attributes, children)
}

pub fn span(attributes: Vec<Attribute>, children: Vec<Tag>) -> (r: Tag)
    ensures
        r@ == tag_of("span"@, attributes@, children@),
{
    tag("span", attributes, children)
}

pub fn ul(attributes: Vec<Attribute>, children: Vec<Tag>) -> (r: Tag)
    ensures
        r@ == tag_of("ul"@, attributes@, children@),
{
    tag("ul", attributes, children)
}

pub fn ol(attributes: Vec<Attribute>, children: Vec<Tag>) -> (r: Tag)
    ensures
        r@ == tag_of("ol"@, attributes@, children@),
{
    tag("ol", attributes, children)
}

pub fn img(attributes: Vec<Attribute>) -> (r: Tag)
    ensures
        r@ == tag_of("img"@, attributes@, Seq::empty()),
{
    let none: Vec<Tag> = Vec::new();
    tag("img", attributes, none)
}

} // verus!
