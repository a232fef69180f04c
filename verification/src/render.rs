//! Rendering the markdown event stream to annotated HTML. Every block
//! element carries a `data-source-line` attribute with the 1-based source
//! line it starts on; text, code and math content is HTML-escaped; raw
//! HTML events pass through verbatim. The only state carried across
//! events is the stack of open image titles, appended when an image
//! closes.

use vstd::prelude::*;

use crate::escape::escape_html;
use crate::escape::spec_escape;
use crate::events::LocatedEvent;
use crate::events::MdEvent;
use crate::events::MdTag;
use crate::events::MdTagEnd;
use crate::numfmt::spec_dec;
use crate::numfmt::u64_to_string;
use crate::numfmt::usize_to_string;
use crate::paths::views_of;

verus! {

/// Whether a character has the Unicode `White_Space` property.
pub uninterp spec fn unicode_whitespace(c: char) -> bool;

/// Relies on `char::is_whitespace`: whether the character has the Unicode
/// `White_Space` property; a pure function of the character alone.
pub assume_specification[ char::is_whitespace ](c: char) -> (b: bool)
    ensures
        b == unicode_whitespace(c),
;

/// Whether a character delimits words in a code-fence info string:
/// Unicode whitespace.
pub open spec fn is_space(c: char) -> bool {
    unicode_whitespace(c)
}

/// The remaining characters after leading whitespace.
pub open spec fn skip_ws(s: Seq<char>) -> Seq<char>
    decreases s.len(),
{
    if s.len() == 0 {
        s
    } else if is_space(s[0]) {
        skip_ws(s.drop_first())
    } else {
        s
    }
}

/// The longest whitespace-free prefix.
pub open spec fn take_word(s: Seq<char>) -> Seq<char>
    decreases s.len(),
{
    if s.len() == 0 || is_space(s[0]) {
        Seq::empty()
    } else {
        seq![s[0]] + take_word(s.drop_first())
    }
}

/// The first whitespace-delimited word of a string (empty if none).
pub open spec fn spec_first_word(s: Seq<char>) -> Seq<char> {
    take_word(skip_ws(s))
}

/// Whether a character delimits words in a code-fence info string.
fn is_space_char(c: char) -> (b: bool)
    ensures
        b == is_space(c),
{
    c.is_whitespace()
}

/// Whether the character at position `i` of `s` is word-delimiting
/// whitespace (positions past the end are not).
fn space_at(s: &str, i: usize) -> (b: bool)
    requires
        i < s@.len(),
    ensures
        b == is_space(s@[i as int]),
{
    is_space_char(s.get_char(i))
}

/// The first whitespace-delimited word of a code-fence info string.
pub fn first_word(s: &str) -> (r: String)
    ensures
        r@ == spec_first_word(s@),
{
    let len = s.unicode_len();
    let mut i: usize = 0;
    proof {
        assert(s@.skip(0) =~= s@);
    }
    while i < len && space_at(s, i)
        invariant
            i <= len,
            len == s@.len(),
            skip_ws(s@) == skip_ws(s@.skip(i as int)),
        decreases len - i,
    {
        proof {
            assert(s@.skip(i as int)[0] == s@[i as int]);
            assert(s@.skip(i as int).drop_first() =~= s@.skip(i + 1));
        }
        i = i + 1;
    }
    proof {
        if i < len {
            assert(s@.skip(i as int)[0] == s@[i as int]);
            assert(skip_ws(s@.skip(i as int)) == s@.skip(i as int));
        } else {
            assert(s@.skip(i as int) =~= Seq::<char>::empty());
        }
    }
    let mut r = String::new();
    let mut j: usize = i;
    proof {
        assert(r@ + take_word(s@.skip(j as int)) =~= take_word(s@.skip(j as int)));
    }
    while j < len && !space_at(s, j)
        invariant
            i <= j <= len,
            len == s@.len(),
            spec_first_word(s@) == r@ + take_word(s@.skip(j as int)),
        decreases len - j,
    {
        proof {
            assert(s@.skip(j as int)[0] == s@[j as int]);
            assert(s@.skip(j as int).drop_first() =~= s@.skip(j + 1));
        }
        let c = s.get_char(j);
        let ghost old_r = r@;
        crate::escape::push_char(&mut r, c);
        proof {
            assert(take_word(s@.skip(j as int)) == seq![s@[j as int]] + take_word(
                s@.skip(j + 1),
            ));
            assert(old_r + (seq![s@[j as int]] + take_word(s@.skip(j + 1))) =~= old_r.push(
                s@[j as int],
            ) + take_word(s@.skip(j + 1)));
        }
        j = j + 1;
    }
    proof {
        if j < len {
            assert(s@.skip(j as int)[0] == s@[j as int]);
            assert(take_word(s@.skip(j as int)) =~= Seq::<char>::empty());
        } else {
            assert(s@.skip(j as int) =~= Seq::<char>::empty());
        }
        assert(r@ + Seq::<char>::empty() =~= r@);
    }
    r
}

/// The opening tag of a link: the escaped destination, and the escaped
/// title when one was given.
pub open spec fn link_open(dest: Seq<char>, title: Seq<char>) -> Seq<char> {
    if title.len() > 0 {
        "<a href=\""@ + spec_escape(dest) + "\" title=\""@ + spec_escape(title) + "\">"@
    } else {
        "<a href=\""@ + spec_escape(dest) + "\">"@
    }
}

/// The opening of an image: the escaped destination and the opened `alt`
/// attribute, which the following text events fill.
pub open spec fn image_open(dest: Seq<char>) -> Seq<char> {
    "<img src=\""@ + spec_escape(dest) + "\" alt=\""@
}

/// The opening tag emitted for a start event, with its source line.
pub open spec fn start_fragment(tag: MdTag, line: int) -> Seq<char> {
    match tag {
        MdTag::Paragraph => "<p data-source-line=\""@ + spec_dec(line) + "\">"@,
        MdTag::Heading { level, id } => match id {
            Option::Some(ids) => "<h"@ + spec_dec(level as int) + " id=\""@ + spec_escape(ids@)
                + "\" data-source-line=\""@ + spec_dec(line) + "\">"@,
            Option::None => "<h"@ + spec_dec(level as int) + " data-source-line=\""@ + spec_dec(
                line,
            ) + "\">"@,
        },
        MdTag::BlockQuote => "<blockquote data-source-line=\""@ + spec_dec(line) + "\">\n"@,
        MdTag::CodeBlockFenced { info } => {
            let lang = spec_first_word(info@);
            if lang.len() == 0 {
                "<pre data-source-line=\""@ + spec_dec(line) + "\"><code>"@
            } else {
                "<pre data-source-line=\""@ + spec_dec(line) + "\"><code class=\"language-"@
                    + spec_escape(lang) + "\">"@
            }
        },
        MdTag::CodeBlockIndented => "<pre data-source-line=\""@ + spec_dec(line) + "\"><code>"@,
        MdTag::OrderedList { start } => {
            if start == 1 {
                "<ol data-source-line=\""@ + spec_dec(line) + "\">\n"@
            } else {
                "<ol start=\""@ + spec_dec(start as int) + "\" data-source-line=\""@ + spec_dec(
                    line,
                ) + "\">\n"@
            }
        },
        MdTag::UnorderedList => "<ul data-source-line=\""@ + spec_dec(line) + "\">\n"@,
        MdTag::Item => "<li data-source-line=\""@ + spec_dec(line) + "\">"@,
        MdTag::FootnoteDefinition { name } => "<div class=\"footnote-definition\" id=\""@
            + spec_escape(name@) + "\" data-source-line=\""@ + spec_dec(line)
            + "\">\n<span class=\"footnote-definition-label\">"@ + spec_escape(name@)
            + "</span>\n"@,
        MdTag::Table => "<table data-source-line=\""@ + spec_dec(line) + "\">\n"@,
        MdTag::TableHead => "<thead>\n<tr>\n"@,
        MdTag::TableRow => "<tr>\n"@,
        MdTag::TableCell => "<td>"@,
        MdTag::Emphasis => "<em>"@,
        MdTag::Strong => "<strong>"@,
        MdTag::Strikethrough => "<del>"@,
        MdTag::Superscript => "<sup>"@,
        MdTag::Subscript => "<sub>"@,
        MdTag::Link { link_type, dest, title } => link_open(dest@, title@),
        MdTag::Image { link_type, dest, title } => image_open(dest@),
        MdTag::MetadataBlock => Seq::empty(),
        MdTag::DefinitionList => "<dl data-source-line=\""@ + spec_dec(line) + "\">\n"@,
        MdTag::DefinitionListTitle => "<dt data-source-line=\""@ + spec_dec(line) + "\">"@,
        MdTag::DefinitionListDefinition => "<dd data-source-line=\""@ + spec_dec(line) + "\">"@,
        MdTag::HtmlBlock => Seq::empty(),
    }
}

/// What closes an image: the alt text's closing quote, the pending title
/// attribute when one was given, and the self-closing bracket.
pub open spec fn image_close(titles: Seq<Seq<char>>) -> Seq<char> {
    if titles.len() > 0 && titles.last().len() > 0 {
        "\" title=\""@ + spec_escape(titles.last()) + "\" />"@
    } else {
        "\" />"@
    }
}

/// The closing tag emitted for an end event, given the open image titles.
pub open spec fn end_fragment(tag: MdTagEnd, titles: Seq<Seq<char>>) -> Seq<char> {
    match tag {
        MdTagEnd::Paragraph => "</p>\n"@,
        MdTagEnd::Heading { level } => "</h"@ + spec_dec(level as int) + ">\n"@,
        MdTagEnd::BlockQuote => "</blockquote>\n"@,
        MdTagEnd::CodeBlock => "</code></pre>\n"@,
        MdTagEnd::OrderedList => "</ol>\n"@,
        MdTagEnd::UnorderedList => "</ul>\n"@,
        MdTagEnd::Item => "</li>\n"@,
        MdTagEnd::FootnoteDefinition => "</div>\n"@,
        MdTagEnd::Table => "</tbody>\n</table>\n"@,
        MdTagEnd::TableHead => "</tr>\n</thead>\n<tbody>\n"@,
        MdTagEnd::TableRow => "</tr>\n"@,
        MdTagEnd::TableCell => "</td>\n"@,
        MdTagEnd::Emphasis => "</em>"@,
        MdTagEnd::Strong => "</strong>"@,
        MdTagEnd::Strikethrough => "</del>"@,
        MdTagEnd::Superscript => "</sup>"@,
        MdTagEnd::Subscript => "</sub>"@,
        MdTagEnd::Link => "</a>"@,
        MdTagEnd::Image => image_close(titles),
        MdTagEnd::MetadataBlock => Seq::empty(),
        MdTagEnd::DefinitionList => "</dl>\n"@,
        MdTagEnd::DefinitionListTitle => "</dt>\n"@,
        MdTagEnd::DefinitionListDefinition => "</dd>\n"@,
        MdTagEnd::HtmlBlock => Seq::empty(),
    }
}

/// The HTML a single event contributes, given its source line and the
/// open image titles.
pub open spec fn fragment_of(ev: MdEvent, line: int, titles: Seq<Seq<char>>) -> Seq<char> {
    match ev {
        MdEvent::Start(tag) => start_fragment(tag, line),
        MdEvent::End(tag) => end_fragment(tag, titles),
        MdEvent::Text(t) => spec_escape(t@),
        MdEvent::Code(t) => "<code>"@ + spec_escape(t@) + "</code>"@,
        MdEvent::Html(t) => t@,
        MdEvent::SoftBreak => "\n"@,
        MdEvent::HardBreak => "<br />\n"@,
        MdEvent::Rule => "<hr data-source-line=\""@ + spec_dec(line) + "\" />\n"@,
        MdEvent::FootnoteReference(name) => "<sup class=\"footnote-reference\"><a href=\"#"@
            + spec_escape(name@) + "\">"@ + spec_escape(name@) + "</a></sup>"@,
        MdEvent::TaskListMarker(checked) => if checked {
            "<input type=\"checkbox\" disabled checked />"@
        } else {
            "<input type=\"checkbox\" disabled />"@
        },
        MdEvent::InlineMath(t) => "<span class=\"math\">"@ + spec_escape(t@) + "</span>"@,
        MdEvent::DisplayMath(t) => "<div class=\"math\" data-source-line=\""@ + spec_dec(line)
            + "\">"@ + spec_escape(t@) + "</div>\n"@,
    }
}

/// The open image titles after an event: an image start pushes its title,
/// an image end pops it.
pub open spec fn titles_after(ev: MdEvent, titles: Seq<Seq<char>>) -> Seq<Seq<char>> {
    match ev {
        MdEvent::Start(MdTag::Image { link_type, dest, title }) => titles.push(title@),
        MdEvent::End(MdTagEnd::Image) => if titles.len() > 0 {
            titles.drop_last()
        } else {
            titles
        },
        _ => titles,
    }
}

/// The HTML of the events from position `i` on, given the open image
/// titles at that point.
pub open spec fn spec_render_from(events: Seq<LocatedEvent>, i: int, titles: Seq<Seq<char>>) -> Seq<
    char,
>
    decreases events.len() - i,
{
    if i < 0 || i >= events.len() {
        Seq::empty()
    } else {
        fragment_of(events[i].event, events[i].line as int, titles) + spec_render_from(
            events,
            i + 1,
            titles_after(events[i].event, titles),
        )
    }
}

/// The annotated HTML of a whole event stream.
pub open spec fn spec_render(events: Seq<LocatedEvent>) -> Seq<char> {
    spec_render_from(events, 0, Seq::empty())
}

/// What a single event contributes once its destination is resolved: an
/// inline link or image opens with its resolved destination; every other
/// event contributes exactly what it does unresolved.
pub open spec fn resolved_fragment_of(
    ev: MdEvent,
    line: int,
    titles: Seq<Seq<char>>,
    base_path: Seq<char>,
    cwd: Seq<char>,
    store: Seq<crate::resolve::ImageEntry>,
) -> Seq<char> {
    match ev {
        MdEvent::Start(MdTag::Link { link_type, dest, title }) => {
            if link_type == crate::events::MdLinkType::Inline {
                link_open(crate::resolve::spec_resolve_link(dest@, base_path, cwd), title@)
            } else {
                fragment_of(ev, line, titles)
            }
        },
        MdEvent::Start(MdTag::Image { link_type, dest, title }) => {
            if link_type == crate::events::MdLinkType::Inline {
                image_open(
                    crate::resolve::spec_resolve_image_dest(
                        dest@,
                        crate::paths::spec_parent_dir(base_path),
                        store,
                    ),
                )
            } else {
                fragment_of(ev, line, titles)
            }
        },
        _ => fragment_of(ev, line, titles),
    }
}

/// The HTML of the events from position `i` on, with every inline link
/// and image destination resolved against the document path, the working
/// directory and the prefetched image store.
pub open spec fn spec_render_resolved_from(
    events: Seq<LocatedEvent>,
    i: int,
    titles: Seq<Seq<char>>,
    base_path: Seq<char>,
    cwd: Seq<char>,
    store: Seq<crate::resolve::ImageEntry>,
) -> Seq<char>
    decreases events.len() - i,
{
    if i < 0 || i >= events.len() {
        Seq::empty()
    } else {
        resolved_fragment_of(
            events[i].event,
            events[i].line as int,
            titles,
            base_path,
            cwd,
            store,
        ) + spec_render_resolved_from(
            events,
            i + 1,
            titles_after(events[i].event, titles),
            base_path,
            cwd,
            store,
        )
    }
}

/// The annotated HTML of a whole event stream with its destinations
/// resolved: what rendering a document comes to.
pub open spec fn spec_render_resolved(
    events: Seq<LocatedEvent>,
    base_path: Seq<char>,
    cwd: Seq<char>,
    store: Seq<crate::resolve::ImageEntry>,
) -> Seq<char> {
    spec_render_resolved_from(events, 0, Seq::empty(), base_path, cwd, store)
}

/// Rendering an event stream whose destinations were resolved pointwise
/// (per `event_resolved`) yields exactly the resolved rendering of the
/// stream it came from.
pub proof fn lemma_render_resolved_equiv(
    orig: Seq<LocatedEvent>,
    res: Seq<LocatedEvent>,
    i: int,
    titles: Seq<Seq<char>>,
    base_path: Seq<char>,
    cwd: Seq<char>,
    store: Seq<crate::resolve::ImageEntry>,
)
    requires
        orig.len() == res.len(),
        forall|j: int|
            0 <= j < orig.len() ==> crate::resolve::event_resolved(
                orig[j],
                #[trigger] res[j],
                base_path,
                cwd,
                store,
            ),
    ensures
        spec_render_from(res, i, titles) == spec_render_resolved_from(
            orig,
            i,
            titles,
            base_path,
            cwd,
            store,
        ),
    decreases orig.len() - i,
{
    if 0 <= i < orig.len() {
        assert(crate::resolve::event_resolved(orig[i], res[i], base_path, cwd, store));
        match orig[i].event {
            MdEvent::Start(MdTag::Link { link_type, dest, title }) => {
                if link_type == crate::events::MdLinkType::Inline {
                    match res[i].event {
                        MdEvent::Start(MdTag::Link { link_type: lt2, dest: d2, title: t2 }) => {
                            assert(fragment_of(res[i].event, res[i].line as int, titles)
                                == link_open(d2@, t2@));
                        },
                        _ => {
                            assert(false);
                        },
                    }
                }
            },
            MdEvent::Start(MdTag::Image { link_type, dest, title }) => {
                if link_type == crate::events::MdLinkType::Inline {
                    match res[i].event {
                        MdEvent::Start(MdTag::Image { link_type: lt2, dest: d2, title: t2 }) => {
                            assert(fragment_of(res[i].event, res[i].line as int, titles)
                                == image_open(d2@));
                            assert(titles_after(res[i].event, titles) == titles.push(t2@));
                            assert(t2@ == title@);
                        },
                        _ => {
                            assert(false);
                        },
                    }
                }
            },
            _ => {},
        }
        assert(titles_after(res[i].event, titles) == titles_after(orig[i].event, titles));
        lemma_render_resolved_equiv(
            orig,
            res,
            i + 1,
            titles_after(orig[i].event, titles),
            base_path,
            cwd,
            store,
        );
    }
}

/// Rendering is deterministic: the HTML a source text renders to is a
/// pure function of the text, the document path, the working directory
/// and the prefetched image bytes — what `render_content` ensures — so
/// two calls on identical inputs yield byte-identical output.
pub proof fn lemma_render_content_deterministic(
    content: Seq<char>,
    base_path: Seq<char>,
    cwd: Seq<char>,
    store: Seq<crate::resolve::ImageEntry>,
    h1: Seq<char>,
    h2: Seq<char>,
)
    requires
        h1 == spec_render_resolved(crate::parse::parsed_events_of(content), base_path, cwd, store),
        h2 == spec_render_resolved(crate::parse::parsed_events_of(content), base_path, cwd, store),
    ensures
        h1 == h2,
{
}

/// Raw HTML passes through verbatim: what an HTML event contributes to
/// the rendering is its content exactly, never escaped.
pub proof fn lemma_raw_html_verbatim(t: String, line: int, titles: Seq<Seq<char>>)
    ensures
        fragment_of(MdEvent::Html(t), line, titles) == t@,
{
}

/// The opening tag for a start event.
pub fn start_tag_html(tag: &MdTag, line: usize) -> (r: String)
    ensures
        r@ == start_fragment(*tag, line as int),
{
    match tag {
        MdTag::Paragraph => {
            let mut s = String::from_str("<p data-source-line=\"");
            s.append(usize_to_string(line).as_str());
            s.append("\">");
            s
        },
        MdTag::Heading { level, id } => {
            let mut s = String::from_str("<h");
            s.append(u64_to_string(*level as u64).as_str());
            match id {
                Option::Some(ids) => {
                    s.append(" id=\"");
                    s.append(escape_html(ids.as_str()).as_str());
                    s.append("\" data-source-line=\"");
                },
                Option::None => {
                    s.append(" data-source-line=\"");
                },
            }
            s.append(usize_to_string(line).as_str());
            s.append("\">");
            s
        },
        MdTag::BlockQuote => {
            let mut s = String::from_str("<blockquote data-source-line=\"");
            s.append(usize_to_string(line).as_str());
            s.append("\">\n");
            s
        },
        MdTag::CodeBlockFenced { info } => {
            let lang = first_word(info.as_str());
            let mut s = String::from_str("<pre data-source-line=\"");
            s.append(usize_to_string(line).as_str());
            if lang.unicode_len() == 0 {
                s.append("\"><code>");
            } else {
                s.append("\"><code class=\"language-");
                s.append(escape_html(lang.as_str()).as_str());
                s.append("\">");
            }
            s
        },
        MdTag::CodeBlockIndented => {
            let mut s = String::from_str("<pre data-source-line=\"");
            s.append(usize_to_string(line).as_str());
            s.append("\"><code>");
            s
        },
        MdTag::OrderedList { start } => {
            if *start == 1 {
                let mut s = String::from_str("<ol data-source-line=\"");
                s.append(usize_to_string(line).as_str());
                s.append("\">\n");
                s
            } else {
                let mut s = String::from_str("<ol start=\"");
                s.append(u64_to_string(*start).as_str());
                s.append("\" data-source-line=\"");
                s.append(usize_to_string(line).as_str());
                s.append("\">\n");
                s
            }
        },
        MdTag::UnorderedList => {
            let mut s = String::from_str("<ul data-source-line=\"");
            s.append(usize_to_string(line).as_str());
            s.append("\">\n");
            s
        },
        MdTag::Item => {
            let mut s = String::from_str("<li data-source-line=\"");
            s.append(usize_to_string(line).as_str());
            s.append("\">");
            s
        },
        MdTag::FootnoteDefinition { name } => {
            let mut s = String::from_str("<div class=\"footnote-definition\" id=\"");
            s.append(escape_html(name.as_str()).as_str());
            s.append("\" data-source-line=\"");
            s.append(usize_to_string(line).as_str());
            s.append("\">\n<span class=\"footnote-definition-label\">");
            s.append(escape_html(name.as_str()).as_str());
            s.append("</span>\n");
            s
        },
        MdTag::Table => {
            let mut s = String::from_str("<table data-source-line=\"");
            s.append(usize_to_string(line).as_str());
            s.append("\">\n");
            s
        },
        MdTag::TableHead => String::from_str("<thead>\n<tr>\n"),
        MdTag::TableRow => String::from_str("<tr>\n"),
        MdTag::TableCell => String::from_str("<td>"),
        MdTag::Emphasis => String::from_str("<em>"),
        MdTag::Strong => String::from_str("<strong>"),
        MdTag::Strikethrough => String::from_str("<del>"),
        MdTag::Superscript => String::from_str("<sup>"),
        MdTag::Subscript => String::from_str("<sub>"),
        MdTag::Link { link_type, dest, title } => {
            let mut s = String::from_str("<a href=\"");
            s.append(escape_html(dest.as_str()).as_str());
            if title.unicode_len() > 0 {
                s.append("\" title=\"");
                s.append(escape_html(title.as_str()).as_str());
                s.append("\">");
            } else {
                s.append("\">");
            }
            s
        },
        MdTag::Image { link_type, dest, title } => {
            let mut s = String::from_str("<img src=\"");
            s.append(escape_html(dest.as_str()).as_str());
            s.append("\" alt=\"");
            s
        },
        MdTag::MetadataBlock => {
            let s = String::new();
            proof {
                assert(s@ =~= Seq::<char>::empty());
            }
            s
        },
        MdTag::DefinitionList => {
            let mut s = String::from_str("<dl data-source-line=\"");
            s.append(usize_to_string(line).as_str());
            s.append("\">\n");
            s
        },
        MdTag::DefinitionListTitle => {
            let mut s = String::from_str("<dt data-source-line=\"");
            s.append(usize_to_string(line).as_str());
            s.append("\">");
            s
        },
        MdTag::DefinitionListDefinition => {
            let mut s = String::from_str("<dd data-source-line=\"");
            s.append(usize_to_string(line).as_str());
            s.append("\">");
            s
        },
        MdTag::HtmlBlock => {
            let s = String::new();
            proof {
                assert(s@ =~= Seq::<char>::empty());
            }
            s
        },
    }
}

/// The closing tag for an end event, given the open image titles.
pub fn end_tag_html(tag: &MdTagEnd, titles: &Vec<String>) -> (r: String)
    ensures
        r@ == end_fragment(*tag, views_of(titles@)),
{
    match tag {
        MdTagEnd::Paragraph => String::from_str("</p>\n"),
        MdTagEnd::Heading { level } => {
            let mut s = String::from_str("</h");
            s.append(u64_to_string(*level as u64).as_str());
            s.append(">\n");
            s
        },
        MdTagEnd::BlockQuote => String::from_str("</blockquote>\n"),
        MdTagEnd::CodeBlock => String::from_str("</code></pre>\n"),
        MdTagEnd::OrderedList => String::from_str("</ol>\n"),
        MdTagEnd::UnorderedList => String::from_str("</ul>\n"),
        MdTagEnd::Item => String::from_str("</li>\n"),
        MdTagEnd::FootnoteDefinition => String::from_str("</div>\n"),
        MdTagEnd::Table => String::from_str("</tbody>\n</table>\n"),
        MdTagEnd::TableHead => String::from_str("</tr>\n</thead>\n<tbody>\n"),
        MdTagEnd::TableRow => String::from_str("</tr>\n"),
        MdTagEnd::TableCell => String::from_str("</td>\n"),
        MdTagEnd::Emphasis => String::from_str("</em>"),
        MdTagEnd::Strong => String::from_str("</strong>"),
        MdTagEnd::Strikethrough => String::from_str("</del>"),
        MdTagEnd::Superscript => String::from_str("</sup>"),
        MdTagEnd::Subscript => String::from_str("</sub>"),
        MdTagEnd::Link => String::from_str("</a>"),
        MdTagEnd::Image => {
            let n = titles.len();
            if n > 0 && titles[n - 1].unicode_len() > 0 {
                proof {
                    assert(views_of(titles@).last() == titles@[n - 1]@);
                }
                let mut s = String::from_str("\" title=\"");
                s.append(escape_html(titles[n - 1].as_str()).as_str());
                s.append("\" />");
                s
            } else {
                proof {
                    if n > 0 {
                        assert(views_of(titles@).last() == titles@[n - 1]@);
                    }
                }
                String::from_str("\" />")
            }
        },
        MdTagEnd::MetadataBlock => {
            let s = String::new();
            proof {
                assert(s@ =~= Seq::<char>::empty());
            }
            s
        },
        MdTagEnd::DefinitionList => String::from_str("</dl>\n"),
        MdTagEnd::DefinitionListTitle => String::from_str("</dt>\n"),
        MdTagEnd::DefinitionListDefinition => String::from_str("</dd>\n"),
        MdTagEnd::HtmlBlock => {
            let s = String::new();
            proof {
                assert(s@ =~= Seq::<char>::empty());
            }
            s
        },
    }
}

/// The HTML a single event contributes.
pub fn fragment_html(ev: &MdEvent, line: usize, titles: &Vec<String>) -> (r: String)
    ensures
        r@ == fragment_of(*ev, line as int, views_of(titles@)),
{
    match ev {
        MdEvent::Start(tag) => start_tag_html(tag, line),
        MdEvent::End(tag) => end_tag_html(tag, titles),
        MdEvent::Text(t) => escape_html(t.as_str()),
        MdEvent::Code(t) => {
            let mut s = String::from_str("<code>");
            s.append(escape_html(t.as_str()).as_str());
            s.append("</code>");
            s
        },
        MdEvent::Html(t) => t.clone(),
        MdEvent::SoftBreak => String::from_str("\n"),
        MdEvent::HardBreak => String::from_str("<br />\n"),
        MdEvent::Rule => {
            let mut s = String::from_str("<hr data-source-line=\"");
            s.append(usize_to_string(line).as_str());
            s.append("\" />\n");
            s
        },
        MdEvent::FootnoteReference(name) => {
            let mut s = String::from_str("<sup class=\"footnote-reference\"><a href=\"#");
            s.append(escape_html(name.as_str()).as_str());
            s.append("\">");
            s.append(escape_html(name.as_str()).as_str());
            s.append("</a></sup>");
            s
        },
        MdEvent::TaskListMarker(checked) => {
            if *checked {
                String::from_str("<input type=\"checkbox\" disabled checked />")
            } else {
                String::from_str("<input type=\"checkbox\" disabled />")
            }
        },
        MdEvent::InlineMath(t) => {
            let mut s = String::from_str("<span class=\"math\">");
            s.append(escape_html(t.as_str()).as_str());
            s.append("</span>");
            s
        },
        MdEvent::DisplayMath(t) => {
            let mut s = String::from_str("<div class=\"math\" data-source-line=\"");
            s.append(usize_to_string(line).as_str());
            s.append("\">");
            s.append(escape_html(t.as_str()).as_str());
            s.append("</div>\n");
            s
        },
    }
}

/// Renders a whole event stream to annotated HTML.
pub fn render_events(events: &Vec<LocatedEvent>) -> (html: String)
    ensures
        html@ == spec_render(events@),
{
    let n = events.len();
    let mut html = String::new();
    let mut titles: Vec<String> = Vec::new();
    let mut i: usize = 0;
    proof {
        assert(html@ + spec_render_from(events@, 0, views_of(titles@)) =~= spec_render_from(
            events@,
            0,
            views_of(titles@),
        ));
        assert(views_of(titles@) =~= Seq::<Seq<char>>::empty());
    }
    while i < n
        invariant
            i <= n,
            n == events@.len(),
            spec_render(events@) == html@ + spec_render_from(events@, i as int, views_of(titles@)),
        decreases n - i,
    {
        let ev = &events[i];
        let frag = fragment_html(&ev.event, ev.line, &titles);
        let ghost old_html = html@;
        let ghost old_titles = views_of(titles@);
        html.append(frag.as_str());
        proof {
            assert(spec_render_from(events@, i as int, old_titles) == fragment_of(
                events@[i as int].event,
                events@[i as int].line as int,
                old_titles,
            ) + spec_render_from(events@, i + 1, titles_after(events@[i as int].event, old_titles)));
            assert(old_html + (frag@ + spec_render_from(
                events@,
                i + 1,
                titles_after(events@[i as int].event, old_titles),
            )) =~= (old_html + frag@) + spec_render_from(
                events@,
                i + 1,
                titles_after(events@[i as int].event, old_titles),
            ));
        }
        match &ev.event {
            MdEvent::Start(MdTag::Image { link_type, dest, title }) => {
                titles.push(title.clone());
                proof {
                    assert(views_of(titles@) =~= old_titles.push(title@));
                }
            },
            MdEvent::End(MdTagEnd::Image) => {
                if titles.len() > 0 {
                    titles.pop();
                    proof {
                        assert(views_of(titles@) =~= old_titles.drop_last());
                    }
                }
            },
            _ => {},
        }
        i = i + 1;
    }
    proof {
        assert(spec_render_from(events@, n as int, views_of(titles@)) =~= Seq::<char>::empty());
        assert(html@ + Seq::<char>::empty() =~= html@);
    }
    html
}

/// Renders markdown content from a string to an HTML body, used for live
/// preview where the content comes from the editor's buffer. Inline link
/// and image destinations are resolved against `base_path` and the
/// working directory `cwd`; `images` holds the prefetched bytes of the
/// image files the content refers to (see `collect_image_refs`), a
/// missing or failed entry degrading to the SVG placeholder. The result
/// is exactly the resolved rendering of the source's parse — a pure
/// function of the four arguments, so rendering identical inputs twice
/// yields byte-identical HTML.
pub fn render_content(
    content: &str,
    base_path: &str,
    cwd: &str,
    images: &Vec<crate::resolve::ImageEntry>,
) -> (html: String)
    ensures
        html@ == spec_render_resolved(
            crate::parse::parsed_events_of(content@),
            base_path@,
            cwd@,
            images@,
        ),
{
    let parsed = crate::parse::parse_markdown(content);
    let ghost parsed_view = parsed@;
    let resolved = crate::resolve::resolve_events(parsed, base_path, cwd, images);
    let html = render_events(&resolved);
    proof {
        lemma_render_resolved_equiv(
            parsed_view,
            resolved@,
            0,
            Seq::empty(),
            base_path@,
            cwd@,
            images@,
        );
    }
    html
}

} // verus!
