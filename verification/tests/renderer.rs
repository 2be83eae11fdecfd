use md_highlight::event::{HeadingDepth, MdEvent, MdTag};
use md_highlight::instruction::{Color, RenderInstruction};
use md_highlight::render::render;

fn text_run(
    content: &str,
    color: Color,
    font_size: u8,
    indent_level: u64,
    bulleted: bool,
) -> RenderInstruction {
    RenderInstruction::TextRun {
        content: content.to_string(),
        color,
        font_size,
        italic: false,
        bold: false,
        indent_level,
        bulleted,
    }
}

#[test]
fn empty_events_give_empty_instructions() {
    let out = render(&Vec::new());
    assert!(out.is_empty());
}

#[test]
fn heading_then_paragraph() {
    let events = vec![
        MdEvent::Start(MdTag::Heading(HeadingDepth::H1)),
        MdEvent::Text("Title".to_string()),
        MdEvent::End(MdTag::Heading(HeadingDepth::H1)),
        MdEvent::Start(MdTag::Paragraph),
        MdEvent::Text("Hello".to_string()),
        MdEvent::End(MdTag::Paragraph),
    ];
    let out = render(&events);
    let expected = vec![
        RenderInstruction::LineBreak,
        text_run("Title", Color::Accent, 22, 0, false),
        text_run("Hello", Color::Neutral, 14, 0, false),
    ];
    assert_eq!(out, expected);
}

#[test]
fn flat_list_items_are_bulleted_and_unindented() {
    let events = vec![
        MdEvent::Start(MdTag::List),
        MdEvent::Start(MdTag::Item),
        MdEvent::Text("a".to_string()),
        MdEvent::End(MdTag::Item),
        MdEvent::Start(MdTag::Item),
        MdEvent::Text("b".to_string()),
        MdEvent::End(MdTag::Item),
        MdEvent::End(MdTag::List),
    ];
    let out = render(&events);
    let expected = vec![
        text_run("a", Color::Neutral, 14, 0, true),
        text_run("b", Color::Neutral, 14, 0, true),
    ];
    assert_eq!(out, expected);
}

#[test]
fn nested_list_items_are_indented_twenty_per_level() {
    let events = vec![
        MdEvent::Start(MdTag::List),
        MdEvent::Start(MdTag::Item),
        MdEvent::Start(MdTag::List),
        MdEvent::Start(MdTag::Item),
        MdEvent::Text("deep".to_string()),
        MdEvent::End(MdTag::Item),
        MdEvent::End(MdTag::List),
        MdEvent::End(MdTag::Item),
        MdEvent::End(MdTag::List),
    ];
    let out = render(&events);
    let expected = vec![text_run("deep", Color::Neutral, 14, 20, true)];
    assert_eq!(out, expected);
}

#[test]
fn text_outside_any_item_is_plain() {
    let events = vec![
        MdEvent::Start(MdTag::Paragraph),
        MdEvent::Text("plain".to_string()),
        MdEvent::End(MdTag::Paragraph),
    ];
    let out = render(&events);
    let expected = vec![text_run("plain", Color::Neutral, 14, 0, false)];
    assert_eq!(out, expected);
}

#[test]
fn line_breaks_come_from_headings_and_breaks() {
    let events = vec![
        MdEvent::Start(MdTag::Heading(HeadingDepth::H2)),
        MdEvent::Text("head".to_string()),
        MdEvent::End(MdTag::Heading(HeadingDepth::H2)),
        MdEvent::Start(MdTag::Paragraph),
        MdEvent::Text("one".to_string()),
        MdEvent::SoftBreak,
        MdEvent::Text("two".to_string()),
        MdEvent::HardBreak,
        MdEvent::Text("three".to_string()),
        MdEvent::End(MdTag::Paragraph),
    ];
    let out = render(&events);
    let breaks = out
        .iter()
        .filter(|i| matches!(i, RenderInstruction::LineBreak))
        .count();
    assert_eq!(breaks, 3);
}

#[test]
fn heading_sizes_run_from_22_down_to_12() {
    let levels = [
        (HeadingDepth::H1, 22u8),
        (HeadingDepth::H2, 20u8),
        (HeadingDepth::H3, 18u8),
        (HeadingDepth::H4, 16u8),
        (HeadingDepth::H5, 14u8),
        (HeadingDepth::H6, 12u8),
    ];
    for (level, size) in levels {
        let events = vec![
            MdEvent::Start(MdTag::Heading(level)),
            MdEvent::Text("h".to_string()),
            MdEvent::End(MdTag::Heading(level)),
        ];
        let out = render(&events);
        let expected = vec![
            RenderInstruction::LineBreak,
            text_run("h", Color::Accent, size, 0, false),
        ];
        assert_eq!(out, expected);
    }
}

#[test]
fn paragraph_after_heading_restores_base_style() {
    let events = vec![
        MdEvent::Start(MdTag::Heading(HeadingDepth::H3)),
        MdEvent::Text("head".to_string()),
        MdEvent::End(MdTag::Heading(HeadingDepth::H3)),
        MdEvent::Start(MdTag::Paragraph),
        MdEvent::Text("body".to_string()),
        MdEvent::End(MdTag::Paragraph),
    ];
    let out = render(&events);
    assert_eq!(out[2], text_run("body", Color::Neutral, 14, 0, false));
}

#[test]
fn end_of_unstyled_construct_resets_style() {
    let events = vec![
        MdEvent::Start(MdTag::Heading(HeadingDepth::H1)),
        MdEvent::Text("head".to_string()),
        MdEvent::End(MdTag::Other),
        MdEvent::Text("after".to_string()),
    ];
    let out = render(&events);
    let expected = vec![
        RenderInstruction::LineBreak,
        text_run("head", Color::Accent, 22, 0, false),
        text_run("after", Color::Neutral, 14, 0, false),
    ];
    assert_eq!(out, expected);
}

#[test]
fn unmatched_end_of_list_keeps_depth_at_zero() {
    let events = vec![
        MdEvent::End(MdTag::List),
        MdEvent::Start(MdTag::List),
        MdEvent::Start(MdTag::Item),
        MdEvent::Text("a".to_string()),
        MdEvent::End(MdTag::Item),
        MdEvent::End(MdTag::List),
    ];
    let out = render(&events);
    let expected = vec![text_run("a", Color::Neutral, 14, 0, true)];
    assert_eq!(out, expected);
}

#[test]
fn rendering_twice_gives_identical_instructions() {
    let events = vec![
        MdEvent::Start(MdTag::Heading(HeadingDepth::H2)),
        MdEvent::Text("head".to_string()),
        MdEvent::End(MdTag::Heading(HeadingDepth::H2)),
        MdEvent::Start(MdTag::List),
        MdEvent::Start(MdTag::Item),
        MdEvent::Text("item".to_string()),
        MdEvent::End(MdTag::Item),
        MdEvent::End(MdTag::List),
        MdEvent::SoftBreak,
        MdEvent::Leaf,
    ];
    let first = render(&events);
    let second = render(&events);
    assert_eq!(first, second);
}

#[test]
fn ignored_leaf_events_emit_nothing() {
    let events = vec![MdEvent::Leaf, MdEvent::Start(MdTag::Other), MdEvent::Leaf];
    let out = render(&events);
    assert!(out.is_empty());
}
