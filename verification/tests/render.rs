use penview::dataurl::data_url;
use penview::dataurl::file_data_url;
use penview::dataurl::generate_message_data_url;
use penview::escape::escape_html;
use penview::lines::byte_offset_to_line;
use penview::parse::parse_markdown;
use penview::render::first_word;
use penview::render::render_content;
use penview::render::render_events;
use penview::resolve::resolve_link_dest;
use penview::resolve::ImageEntry;

fn render_plain(content: &str) -> String {
    let no_images: Vec<ImageEntry> = Vec::new();
    render_content(content, "/doc/base.md", "/nowhere", &no_images)
}

#[test]
fn offsets_map_to_one_based_lines() {
    let content = "ab\ncd\nef";
    assert_eq!(byte_offset_to_line(content, 0), 1);
    assert_eq!(byte_offset_to_line(content, 2), 1);
    assert_eq!(byte_offset_to_line(content, 3), 2);
    assert_eq!(byte_offset_to_line(content, 5), 2);
    assert_eq!(byte_offset_to_line(content, 6), 3);
    // Offsets past the end clamp to the end of the text.
    assert_eq!(byte_offset_to_line(content, 1000), 3);
}

#[test]
fn offset_to_line_is_monotonic() {
    let content = "a\n\nbb\ncc\n\nd";
    let mut last = 0usize;
    let mut off = 0usize;
    while off < 20 {
        let line = byte_offset_to_line(content, off);
        assert!(line >= 1);
        assert!(line >= last);
        last = line;
        off += 1;
    }
}

#[test]
fn rendering_twice_is_byte_identical() {
    let content = "# Title\n\nSome *text* with [a link](x.md) and `code`.\n\n- one\n- two\n";
    let first = render_plain(content);
    let second = render_plain(content);
    assert_eq!(first, second);
}

#[test]
fn paragraphs_carry_source_lines() {
    let html = render_plain("first\n\nsecond\n\nthird");
    assert!(html.contains("<p data-source-line=\"1\">"));
    assert!(html.contains("<p data-source-line=\"3\">"));
    assert!(html.contains("<p data-source-line=\"5\">"));
}

#[test]
fn ordered_list_start_attribute() {
    let html = render_plain("1. a\n2. b\n");
    assert!(html.contains("<ol data-source-line=\"1\">"));
    assert!(!html.contains("start="));

    let html = render_plain("5. a\n6. b\n");
    assert!(html.contains("<ol start=\"5\" data-source-line=\"1\">"));
}

#[test]
fn escaping_is_applied_exactly_once() {
    assert_eq!(escape_html("a&<>\"'b"), "a&amp;&lt;&gt;&quot;&#x27;b");
    assert_eq!(escape_html("&amp;"), "&amp;amp;");
    assert_eq!(escape_html(""), "");
    let html = render_plain("a &amp; b\n");
    assert!(html.contains("<p data-source-line=\"1\">a &amp; b</p>"));
    let html = render_plain("`a & \"b\" < 'c' >`\n");
    assert!(html.contains("<code>a &amp; &quot;b&quot; &lt; &#x27;c&#x27; &gt;</code>"));
}

#[test]
fn raw_html_passes_through_unescaped() {
    let html = render_plain("<div class=\"x\">raw</div>\n");
    assert!(html.contains("<div class=\"x\">raw</div>"));
    assert!(!html.contains("&lt;div"));
}

#[test]
fn code_blocks_take_first_fence_word() {
    assert_eq!(first_word("rust ignore"), "rust");
    assert_eq!(first_word("  rust"), "rust");
    assert_eq!(first_word(""), "");
    // The fence info string splits on any Unicode whitespace.
    assert_eq!(first_word("rust\u{A0}extra"), "rust");
    let html = render_plain("```rust extra\nlet x = 1 < 2;\n```\n");
    assert!(html.contains("<pre data-source-line=\"1\"><code class=\"language-rust\">"));
    assert!(html.contains("let x = 1 &lt; 2;"));
    let html = render_plain("```\nplain\n```\n");
    assert!(html.contains("<pre data-source-line=\"1\"><code>"));
}

#[test]
fn heading_ids_are_emitted() {
    let html = render_plain("# Title\n");
    assert!(html.contains("<h1 data-source-line=\"1\">"));
    let html = render_plain("## Other { #slug }\n");
    assert!(html.contains("<h2 id=\"slug\" data-source-line=\"1\">"));
}

#[test]
fn task_lists_and_rules_render() {
    let html = render_plain("- [x] done\n- [ ] open\n\n---\n");
    assert!(html.contains("<input type=\"checkbox\" disabled checked />"));
    assert!(html.contains("<input type=\"checkbox\" disabled />"));
    assert!(html.contains("<hr data-source-line=\"4\" />"));
}

#[test]
fn links_rewrite_to_path_references() {
    let no_images: Vec<ImageEntry> = Vec::new();
    let html = render_content("[l](x.md)\n", "/a/b.md", "/nowhere", &no_images);
    assert!(html.contains("<a href=\"/?path=/a/x.md\">"));

    // A destination that parses as an absolute URL passes through.
    let html = render_content("[l](https://example.com/x)\n", "/a/b.md", "/nowhere", &no_images);
    assert!(html.contains("<a href=\"https://example.com/x\">"));
}

#[test]
fn link_destination_resolution() {
    assert_eq!(
        resolve_link_dest("../linux.md", "/a/b/c/dns.md", "/nowhere"),
        "/?path=/a/b/linux.md"
    );
    assert_eq!(
        resolve_link_dest("https://example.com/x", "/a/b/c/dns.md", "/nowhere"),
        "https://example.com/x"
    );
    // A link under the working directory is shown relative to it.
    assert_eq!(
        resolve_link_dest("../linux.md", "/a/b/c/dns.md", "/a"),
        "/?path=b/linux.md"
    );
}

#[test]
fn missing_image_renders_placeholder() {
    let no_images: Vec<ImageEntry> = Vec::new();
    let html = render_content("![alt](missing.png)\n", "/docs/doc.md", "/nowhere", &no_images);
    assert!(html.contains("<img src=\"data:image/svg+xml;base64,"));
    assert!(html.contains("alt=\"alt\""));
}

#[test]
fn present_image_becomes_data_url() {
    let store = vec![ImageEntry {
        path: String::from("/docs/pic.png"),
        data: Some(vec![1u8, 2, 3]),
    }];
    let html = render_content("![p](pic.png)\n", "/docs/doc.md", "/nowhere", &store);
    assert!(html.contains("<img src=\"data:image/png;base64,AQID\""));
}

#[test]
fn image_title_closes_the_tag() {
    let no_images: Vec<ImageEntry> = Vec::new();
    let html = render_content(
        "![alt](https://example.com/i.png \"the title\")\n",
        "/docs/doc.md",
        "/nowhere",
        &no_images,
    );
    assert!(html.contains("alt=\"alt\" title=\"the title\" />"));
}

#[test]
fn data_urls_are_exact() {
    assert_eq!(data_url(b"hi", "text/plain"), "data:text/plain;base64,aGk=");
    assert_eq!(
        file_data_url("x.png", &vec![1u8, 2, 3]),
        "data:image/png;base64,AQID"
    );
    // An extension nothing is known for falls back to text/plain.
    assert_eq!(
        file_data_url("x.unknownext", &vec![1u8, 2, 3]),
        "data:text/plain;base64,AQID"
    );
}

#[test]
fn placeholder_data_url_is_the_encoded_svg() {
    let svg = "<svg xmlns=\"http://www.w3.org/2000/svg\" width=\"400\" height=\"100\"><rect width=\"100%\" height=\"100%\" fill=\"red\" /><text x=\"10\" y=\"55\">Disk error.</text></svg>";
    let expected = format!(
        "data:image/svg+xml;base64,{}",
        base64::Engine::encode(&base64::engine::general_purpose::STANDARD, svg.as_bytes())
    );
    assert_eq!(generate_message_data_url("Disk error.", "red"), expected);
}

#[test]
fn breaks_and_math_render() {
    let html = render_plain("a  \nb\n");
    assert!(html.contains("<br />\n"));
    let html = render_plain("$x$ and\n\n$$y$$\n");
    assert!(html.contains("<span class=\"math\">x</span>"));
    assert!(html.contains("<div class=\"math\" data-source-line=\"3\">y</div>"));
}

#[test]
fn footnotes_render_escaped() {
    let html = render_plain("text[^a&b]\n\n[^a&b]: note\n");
    assert!(html.contains("<sup class=\"footnote-reference\"><a href=\"#a&amp;b\">a&amp;b</a></sup>"));
    assert!(html.contains("<div class=\"footnote-definition\" id=\"a&amp;b\""));
}

#[test]
fn tables_render_with_head_and_body() {
    let html = render_plain("| a | b |\n|---|---|\n| c | d |\n");
    assert!(html.contains("<table data-source-line=\"1\">"));
    assert!(html.contains("<thead>\n<tr>\n<td>a</td>"));
    assert!(html.contains("<tbody>\n<tr>\n<td>c</td>"));
    assert!(html.contains("</tbody>\n</table>"));
}

#[test]
fn blockquotes_and_strikethrough_render() {
    let html = render_plain("> quoted\n");
    assert!(html.contains("<blockquote data-source-line=\"1\">"));
    assert!(html.contains("</blockquote>"));
    let html = render_plain("~~gone~~ *em* **strong**\n");
    assert!(html.contains("<del>gone</del>"));
    assert!(html.contains("<em>em</em>"));
    assert!(html.contains("<strong>strong</strong>"));
}

#[test]
fn empty_content_renders_empty() {
    let events = parse_markdown("");
    assert_eq!(events.len(), 0);
    assert_eq!(render_events(&events), "");
}
