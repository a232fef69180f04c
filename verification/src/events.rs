//! The position-tagged markdown event stream that the renderer consumes:
//! a tagged union of event kinds, each carrying its semantic payload as
//! plain values, paired with the 1-based source line its byte range starts
//! on.

use vstd::prelude::*;

verus! {

/// How a link or image was written in the source.
#[derive(Clone, Copy, Debug, PartialEq, Eq, Structural)]
pub enum MdLinkType {
    Inline,
    Reference,
    ReferenceUnknown,
    Collapsed,
    CollapsedUnknown,
    Shortcut,
    ShortcutUnknown,
    Autolink,
    Email,
    WikiLink,
}

/// The start of a tagged element.
#[derive(Clone, Debug, PartialEq)]
pub enum MdTag {
    Paragraph,
    Heading { level: u8, id: Option<String> },
    BlockQuote,
    CodeBlockFenced { info: String },
    CodeBlockIndented,
    OrderedList { start: u64 },
    UnorderedList,
    Item,
    FootnoteDefinition { name: String },
    Table,
    TableHead,
    TableRow,
    TableCell,
    Emphasis,
    Strong,
    Strikethrough,
    Superscript,
    Subscript,
    Link { link_type: MdLinkType, dest: String, title: String },
    Image { link_type: MdLinkType, dest: String, title: String },
    MetadataBlock,
    DefinitionList,
    DefinitionListTitle,
    DefinitionListDefinition,
    HtmlBlock,
}

/// The end of a tagged element.
#[derive(Clone, Copy, Debug, PartialEq, Eq, Structural)]
pub enum MdTagEnd {
    Paragraph,
    Heading { level: u8 },
    BlockQuote,
    CodeBlock,
    OrderedList,
    UnorderedList,
    Item,
    FootnoteDefinition,
    Table,
    TableHead,
    TableRow,
    TableCell,
    Emphasis,
    Strong,
    Strikethrough,
    Superscript,
    Subscript,
    Link,
    Image,
    MetadataBlock,
    DefinitionList,
    DefinitionListTitle,
    DefinitionListDefinition,
    HtmlBlock,
}

/// One event of the markdown parse.
#[derive(Clone, Debug, PartialEq)]
pub enum MdEvent {
    Start(MdTag),
    End(MdTagEnd),
    Text(String),
    Code(String),
    Html(String),
    SoftBreak,
    HardBreak,
    Rule,
    FootnoteReference(String),
    TaskListMarker(bool),
    InlineMath(String),
    DisplayMath(String),
}

/// An event together with the byte offset at which its source range
/// starts and the 1-based source line that offset falls on.
#[derive(Clone, Debug, PartialEq)]
pub struct LocatedEvent {
    pub event: MdEvent,
    pub offset: usize,
    pub line: usize,
}

} // verus!
