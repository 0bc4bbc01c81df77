use vstd::prelude::*;
use vstd::string::*;
use crate::json::{Json, Number};

verus! {

#[derive(Debug, Clone, Copy, PartialEq, Eq, Structural)]
pub enum YesOrNo {
    Yes,
    No,
}

#[derive(Debug)]
pub struct TodoProperties {
    pub title: Json,
    pub checked: Vec<Vec<YesOrNo>>,
}

#[derive(Debug)]
pub struct ColumnFormat {
    pub column_ratio: Number,
}

#[derive(Debug)]
pub struct ImageProperties {
    pub source: Vec<Vec<String>>,
    pub caption: Option<Vec<Vec<String>>>,
}

#[derive(Debug)]
pub struct ImageFormat {
    pub block_width: i64,
    pub block_height: i64,
    pub display_source: Option<i64>,
    pub block_full_width: Option<bool>,
    pub block_page_width: Option<bool>,
    pub block_aspect_ratio: Number,
    pub block_preserve_scale: bool,
}

#[derive(Debug)]
pub struct PageFormat {
    pub page_full_width: Option<bool>,
    pub page_small_text: Option<bool>,
    pub page_cover_position: Option<Number>,
    pub block_locked: Option<bool>,
    pub page_cover: Option<String>,
    pub page_icon: Option<String>,
}

#[derive(Debug)]
pub struct PagePermissions {
    pub role: String,
}

#[derive(Debug)]
pub struct FigmaProperties {
    pub source: Option<Json>,
}

#[derive(Debug)]
pub struct FigmaFormat {
    pub block_height: Option<i64>,
}

#[derive(Debug)]
pub struct TextProperties {
    pub title: Vec<FormattedText>,
}

#[derive(Debug)]
pub struct PageProperties {
    pub title: Vec<FormattedText>,
}

/// The kind of a block, with the properties and format that belong to it.
#[derive(Debug)]
pub enum RootBlockType {
    Text { properties: Option<TextProperties> },
    BulletedList { properties: Option<TextProperties> },
    NumberedList { properties: Option<TextProperties> },
    Toggle { properties: Option<TextProperties> },
    Header { properties: Option<TextProperties> },
    SubHeader { properties: Option<TextProperties> },
    SubSubHeader { properties: Option<TextProperties> },
    Quote { properties: Option<TextProperties> },
    ToDo { properties: Option<TodoProperties> },
    Divider,
    ColumnList,
    Column { format: ColumnFormat },
    Image { properties: ImageProperties, format: ImageFormat, file_ids: Vec<String> },
    Page { format: Option<PageFormat>, file_ids: Option<Vec<String>>, properties: PageProperties },
    Figma { properties: Option<FigmaProperties>, format: Option<FigmaFormat> },
}

#[derive(Debug)]
pub struct BlockFormatType {
    pub block_color: Option<ColorType>,
}

/// One content block.
#[derive(Debug)]
pub struct BaseValueType {
    pub id: String,
    pub version: i64,
    pub created_time: i64,
    pub last_edited_time: i64,
    pub parent_id: String,
    pub parent_table: String,
    pub alive: bool,
    pub created_by_table: String,
    pub created_by_id: String,
    pub last_edited_by_table: String,
    pub last_edited_by_id: String,
    pub shard_id: Option<i64>,
    pub space_id: Option<String>,
    pub content: Option<Vec<String>>,
    pub format: Option<BlockFormatType>,
    pub block: RootBlockType,
}

#[derive(Debug, Clone, Copy, PartialEq, Eq, Structural)]
pub enum ColorType {
    Gray,
    Brown,
    Orange,
    Yellow,
    Teal,
    Blue,
    Purple,
    Pink,
    Red,
    GrayBackground,
    BrownBackground,
    OrangeBackground,
    YellowBackground,
    TealBackground,
    BlueBackground,
    PurpleBackground,
    PinkBackground,
    RedBackground,
    /// Any color name that is not one of the above.
    NoColor,
}

/// A mark that needs nothing but its kind.
#[derive(Debug, Clone, Copy, PartialEq, Eq, Structural)]
pub enum NoContextFormat {
    Bold,
    Italic,
    Strike,
    Underline,
    Code,
    /// A code that names no known mark; it changes nothing.
    Unknown,
}

/// The `(code, value)` pair in which a mark with a value arrives.
#[derive(Debug)]
pub enum IntermediaryContextFormattingRepresentation {
    Main((String, String)),
}

/// A mark that carries a value.
#[derive(Debug)]
pub enum ContextFormat {
    Link(String),
    Highlight(ColorType),
    /// A code that names no known mark; it changes nothing.
    Unknown,
}

#[derive(Debug)]
pub enum FormatType {
    NoContext(NoContextFormat),
    Context(ContextFormat),
}

/// A run of text with the marks applied to it, in order.
#[derive(Debug)]
pub struct FormattedText {
    pub text: String,
    pub formatting: Option<Vec<FormatType>>,
}

#[derive(Debug)]
pub enum Either<L, R> {
    Left(L),
    Right(R),
}

/// One entry of the block table: a typed block, or the raw value where it
/// could not be typed.
#[derive(Debug)]
pub struct BlockType {
    pub role: String,
    pub value: Either<BaseValueType, Json>,
}

#[derive(Debug)]
pub struct NotionUserValueType {
    pub id: String,
    pub version: i64,
    pub email: String,
    pub given_name: String,
    pub family_name: String,
    pub profile_photo: String,
    pub pubonboarding_complete: Option<bool>,
    pub mobile_onboarding_complete: Option<bool>,
    pub clipper_onboarding_complete: Option<bool>,
}

#[derive(Debug)]
pub struct NotionUserType {
    pub role: String,
    pub value: NotionUserValueType,
}

/// Blocks by id, in the order of the source; where an id repeats, the last entry wins.
pub type BlockTableType = Vec<(String, BlockType)>;

#[derive(Debug)]
pub struct RecordMapType {
    pub block: BlockTableType,
    pub notion_user: Vec<(String, NotionUserType)>,
}

#[derive(Debug)]
pub struct LoadPageChunkData {
    pub record_map: RecordMapType,
}

/// The entry for `id` in a block table; where an id repeats, the last entry wins.
pub open spec fn entry(table: Seq<(String, BlockType)>, id: Seq<char>) -> Option<BlockType>
    decreases table.len(),
{
    if table.len() == 0 {
        Option::None
    } else if table.last().0@ == id {
        Option::Some(table.last().1)
    } else {
        entry(table.drop_last(), id)
    }
}

/// Finds the position of the entry that `entry` describes.
pub fn find_block(table: &BlockTableType, id: &str) -> (r: Option<usize>)
    ensures
        match r {
            Option::Some(i) => i < table@.len() && entry(table@, id@) == Option::Some(table@[i as int].1),
            Option::None => entry(table@, id@) is None,
        },
{
    let mut i = table.len();
    assert(table@.subrange(0, i as int) =~= table@);
    while i > 0
        invariant
            i <= table@.len(),
            entry(table@, id@) == entry(table@.subrange(0, i as int), id@),
        decreases i,
    {
        assert(table@.subrange(0, i as int).drop_last() =~= table@.subrange(0, i - 1));
        if crate::json::same_text(table[i - 1].0.as_str(), id) {
            return Option::Some(i - 1);
        }
        i = i - 1;
    }
    Option::None
}

} // verus!
