//! The trusted boundary to the markdown parser. The parse itself is
//! delegated to pulldown-cmark (all extensions enabled); each of its
//! events is converted, variant by variant, into the library's own
//! event type, and paired with the 1-based source line its byte range
//! starts on.

use vstd::prelude::*;
use vstd::string::StringSliceAdditionalSpecFns;

use pulldown_cmark::CodeBlockKind;
use pulldown_cmark::Event;
use pulldown_cmark::LinkType;
use pulldown_cmark::Tag;
use pulldown_cmark::TagEnd;

use crate::events::LocatedEvent;
use crate::events::MdEvent;
use crate::events::MdLinkType;
use crate::events::MdTag;
use crate::events::MdTagEnd;

verus! {

#[verifier::external_type_specification]
#[verifier::external_body]
pub struct ExEvent<'a>(Event<'a>);

#[verifier::external_type_specification]
#[verifier::external_body]
pub struct ExTag<'a>(Tag<'a>);

#[verifier::external_type_specification]
#[verifier::external_body]
pub struct ExTagEnd(TagEnd);

#[verifier::external_type_specification]
#[verifier::external_body]
pub struct ExLinkType(LinkType);

/// What parsing markdown source yields: the converted event stream, with
/// each event's starting byte offset and source line. The parse is a pure
/// function of the source text alone — pulldown-cmark consults nothing
/// else — which this name asserts.
pub uninterp spec fn parsed_events_of(src: Seq<char>) -> Seq<LocatedEvent>;

/// Relies on `pulldown_cmark::Parser::new_ext` (all extensions enabled)
/// and `OffsetIter`: parses the source into events in document order,
/// deterministically from the source text alone; each event carries the
/// byte offset at which its source range starts — an index into the
/// source, so at most its byte length — and the 1-based line of that
/// offset, computed by the verified line counter. The conversion of each
/// parser event is the converters' below, dispatched by `convert_event`.
#[verifier::external_body]
fn parse_events(src: &str) -> (r: Vec<LocatedEvent>)
    ensures
        r@ == parsed_events_of(src@),
        forall|i: int|
            0 <= i < r@.len() ==> (#[trigger] r@[i]).offset <= src.spec_bytes().len()
                && r@[i].line == crate::lines::line_of(src.spec_bytes(), r@[i].offset as int),
{
    let parser = pulldown_cmark::Parser::new_ext(src, pulldown_cmark::Options::all());
    parser.into_offset_iter().map(
        |(e, range)| LocatedEvent {
            event: convert_event(&e),
            offset: range.start,
            line: crate::lines::byte_offset_to_line(src, range.start),
        },
    ).collect()
}

/// Relies on matching `pulldown_cmark::Event`: the tag of a start event.
#[verifier::external_body]
fn start_tag_of<'a>(e: &Event<'a>) -> (r: Option<Tag<'a>>) {
    match e {
        Event::Start(t) => Some(t.clone()),
        _ => None,
    }
}

/// Relies on matching `pulldown_cmark::Event`: the tag of an end event.
#[verifier::external_body]
fn end_tag_of(e: &Event) -> (r: Option<TagEnd>) {
    match e {
        Event::End(t) => Some(*t),
        _ => None,
    }
}

/// Relies on matching `pulldown_cmark::Event`: converts the text-carrying
/// events, variant for variant; inline HTML and HTML blocks both pass
/// through as raw HTML.
#[verifier::external_body]
fn text_event_of(e: &Event) -> (r: Option<MdEvent>) {
    match e {
        Event::Text(t) => Some(MdEvent::Text(t.to_string())),
        Event::Code(t) => Some(MdEvent::Code(t.to_string())),
        Event::Html(t) => Some(MdEvent::Html(t.to_string())),
        Event::InlineHtml(t) => Some(MdEvent::Html(t.to_string())),
        Event::FootnoteReference(t) => Some(MdEvent::FootnoteReference(t.to_string())),
        Event::InlineMath(t) => Some(MdEvent::InlineMath(t.to_string())),
        Event::DisplayMath(t) => Some(MdEvent::DisplayMath(t.to_string())),
        _ => None,
    }
}

/// Relies on matching `pulldown_cmark::Event`: converts the payload-free
/// events and task list markers, variant for variant.
#[verifier::external_body]
fn plain_event_of(e: &Event) -> (r: Option<MdEvent>) {
    match e {
        Event::SoftBreak => Some(MdEvent::SoftBreak),
        Event::HardBreak => Some(MdEvent::HardBreak),
        Event::Rule => Some(MdEvent::Rule),
        Event::TaskListMarker(b) => Some(MdEvent::TaskListMarker(*b)),
        _ => None,
    }
}

/// Relies on matching `pulldown_cmark::LinkType`: converts it, variant for
/// variant.
#[verifier::external_body]
fn link_type_of(lt: &LinkType) -> (r: MdLinkType) {
    match lt {
        LinkType::Inline => MdLinkType::Inline,
        LinkType::Reference => MdLinkType::Reference,
        LinkType::ReferenceUnknown => MdLinkType::ReferenceUnknown,
        LinkType::Collapsed => MdLinkType::Collapsed,
        LinkType::CollapsedUnknown => MdLinkType::CollapsedUnknown,
        LinkType::Shortcut => MdLinkType::Shortcut,
        LinkType::ShortcutUnknown => MdLinkType::ShortcutUnknown,
        LinkType::Autolink => MdLinkType::Autolink,
        LinkType::Email => MdLinkType::Email,
        LinkType::WikiLink { .. } => MdLinkType::WikiLink,
    }
}

/// Relies on matching `pulldown_cmark::Tag`: converts the block-level
/// tags, variant for variant, moving the heading level (whose variants are
/// numbered 1 through 6), slug, fence info string, list start and footnote
/// name.
#[verifier::external_body]
fn block_tag_of(t: &Tag) -> (r: Option<MdTag>)
    ensures
        match r {
            Option::Some(MdTag::Heading { level, id }) => 1 <= level <= 6,
            _ => true,
        },
{
    match t {
        Tag::Paragraph => Some(MdTag::Paragraph),
        Tag::Heading { level, id, .. } => Some(MdTag::Heading { level: *level as u8, id: id.as_ref().map(|s| s.to_string()) }),
        Tag::BlockQuote(_) => Some(MdTag::BlockQuote),
        Tag::CodeBlock(CodeBlockKind::Fenced(info)) => Some(MdTag::CodeBlockFenced { info: info.to_string() }),
        Tag::CodeBlock(CodeBlockKind::Indented) => Some(MdTag::CodeBlockIndented),
        Tag::List(Some(n)) => Some(MdTag::OrderedList { start: *n }),
        Tag::List(None) => Some(MdTag::UnorderedList),
        Tag::Item => Some(MdTag::Item),
        Tag::FootnoteDefinition(name) => Some(MdTag::FootnoteDefinition { name: name.to_string() }),
        _ => None,
    }
}

/// Relies on matching `pulldown_cmark::Tag`: converts the table,
/// metadata and definition-list tags, variant for variant.
#[verifier::external_body]
fn table_tag_of(t: &Tag) -> (r: Option<MdTag>) {
    match t {
        Tag::Table(_) => Some(MdTag::Table),
        Tag::TableHead => Some(MdTag::TableHead),
        Tag::TableRow => Some(MdTag::TableRow),
        Tag::TableCell => Some(MdTag::TableCell),
        Tag::MetadataBlock(_) => Some(MdTag::MetadataBlock),
        Tag::DefinitionList => Some(MdTag::DefinitionList),
        Tag::DefinitionListTitle => Some(MdTag::DefinitionListTitle),
        Tag::DefinitionListDefinition => Some(MdTag::DefinitionListDefinition),
        Tag::HtmlBlock => Some(MdTag::HtmlBlock),
        _ => None,
    }
}

/// Relies on matching `pulldown_cmark::Tag`: converts the inline tags,
/// variant for variant, moving the link type, destination and title.
#[verifier::external_body]
fn inline_tag_of(t: &Tag) -> (r: Option<MdTag>) {
    match t {
        Tag::Emphasis => Some(MdTag::Emphasis),
        Tag::Strong => Some(MdTag::Strong),
        Tag::Strikethrough => Some(MdTag::Strikethrough),
        Tag::Superscript => Some(MdTag::Superscript),
        Tag::Subscript => Some(MdTag::Subscript),
        Tag::Link { link_type, dest_url, title, .. } => Some(MdTag::Link { link_type: link_type_of(link_type), dest: dest_url.to_string(), title: title.to_string() }),
        Tag::Image { link_type, dest_url, title, .. } => Some(MdTag::Image { link_type: link_type_of(link_type), dest: dest_url.to_string(), title: title.to_string() }),
        _ => None,
    }
}

/// Relies on matching `pulldown_cmark::TagEnd`: converts the block-level
/// end tags, variant for variant; an ordered and an unordered list end are
/// told apart by the boolean the parser carries.
#[verifier::external_body]
fn block_tag_end_of(t: &TagEnd) -> (r: Option<MdTagEnd>)
    ensures
        match r {
            Option::Some(MdTagEnd::Heading { level }) => 1 <= level <= 6,
            _ => true,
        },
{
    match t {
        TagEnd::Paragraph => Some(MdTagEnd::Paragraph),
        TagEnd::Heading(level) => Some(MdTagEnd::Heading { level: *level as u8 }),
        TagEnd::BlockQuote(_) => Some(MdTagEnd::BlockQuote),
        TagEnd::CodeBlock => Some(MdTagEnd::CodeBlock),
        TagEnd::List(true) => Some(MdTagEnd::OrderedList),
        TagEnd::List(false) => Some(MdTagEnd::UnorderedList),
        TagEnd::Item => Some(MdTagEnd::Item),
        TagEnd::FootnoteDefinition => Some(MdTagEnd::FootnoteDefinition),
        _ => None,
    }
}

/// Relies on matching `pulldown_cmark::TagEnd`: converts the table,
/// metadata and definition-list end tags, variant for variant.
#[verifier::external_body]
fn table_tag_end_of(t: &TagEnd) -> (r: Option<MdTagEnd>) {
    match t {
        TagEnd::Table => Some(MdTagEnd::Table),
        TagEnd::TableHead => Some(MdTagEnd::TableHead),
        TagEnd::TableRow => Some(MdTagEnd::TableRow),
        TagEnd::TableCell => Some(MdTagEnd::TableCell),
        TagEnd::MetadataBlock(_) => Some(MdTagEnd::MetadataBlock),
        TagEnd::DefinitionList => Some(MdTagEnd::DefinitionList),
        TagEnd::DefinitionListTitle => Some(MdTagEnd::DefinitionListTitle),
        TagEnd::DefinitionListDefinition => Some(MdTagEnd::DefinitionListDefinition),
        _ => None,
    }
}

/// Relies on matching `pulldown_cmark::TagEnd`: converts the inline end
/// tags, variant for variant; the final arm covers exactly the HTML-block
/// end, which emits nothing, as every other variant is already matched.
#[verifier::external_body]
fn inline_tag_end_of(t: &TagEnd) -> (r: MdTagEnd) {
    match t {
        TagEnd::Emphasis => MdTagEnd::Emphasis,
        TagEnd::Strong => MdTagEnd::Strong,
        TagEnd::Strikethrough => MdTagEnd::Strikethrough,
        TagEnd::Superscript => MdTagEnd::Superscript,
        TagEnd::Subscript => MdTagEnd::Subscript,
        TagEnd::Link => MdTagEnd::Link,
        TagEnd::Image => MdTagEnd::Image,
        _ => MdTagEnd::HtmlBlock,
    }
}

/// Converts one start tag of the parse; the groups together cover every
/// tag, so the fallback, which emits nothing when rendered, is never
/// reached.
fn convert_tag(t: &Tag) -> MdTag {
    if let Some(m) = block_tag_of(t) {
        m
    } else if let Some(m) = table_tag_of(t) {
        m
    } else {
        match inline_tag_of(t) {
            Some(m) => m,
            None => MdTag::HtmlBlock,
        }
    }
}

/// Converts one end tag of the parse.
fn convert_tag_end(t: &TagEnd) -> MdTagEnd {
    if let Some(m) = block_tag_end_of(t) {
        m
    } else if let Some(m) = table_tag_end_of(t) {
        m
    } else {
        inline_tag_end_of(t)
    }
}

/// Converts one event of the parse; the groups together cover every
/// event, so the fallback, a soft break, is never reached.
fn convert_event(e: &Event) -> MdEvent {
    if let Some(t) = start_tag_of(e) {
        MdEvent::Start(convert_tag(&t))
    } else if let Some(t) = end_tag_of(e) {
        MdEvent::End(convert_tag_end(&t))
    } else if let Some(m) = text_event_of(e) {
        m
    } else {
        match plain_event_of(e) {
            Some(m) => m,
            None => MdEvent::SoftBreak,
        }
    }
}

/// Parses markdown source into the library's event stream: exactly the
/// named parse of the source text, every event carrying its starting byte
/// offset — at most the source's byte length — and the 1-based source
/// line of that offset, as the verified line counter computes it.
pub fn parse_markdown(content: &str) -> (events: Vec<LocatedEvent>)
    ensures
        events@ == parsed_events_of(content@),
        forall|i: int|
            0 <= i < events@.len() ==> (#[trigger] events@[i]).offset
                <= content.spec_bytes().len() && events@[i].line == crate::lines::line_of(
                content.spec_bytes(),
                events@[i].offset as int,
            ) && events@[i].line >= 1,
{
    let events = parse_events(content);
    proof {
        assert forall|i: int| 0 <= i < events@.len() implies (#[trigger] events@[i]).line
            >= 1 by {
            crate::lines::lemma_line_of_one_based(content.spec_bytes(), events@[i].offset as int);
        }
    }
    events
}

} // verus!
