use md_highlight::instruction::{Color, RenderInstruction};
use md_highlight::parse::highlight_markdown;

fn text_run(
    content: &str,
    color: Color,
    font_size: u8,
    indent_level: u64,
    bulleted: bool,
) -> RenderInstruction {
    RenderInstruction::TextRun {
        content: content.to_string(),
        color,
        font_size,
        italic: false,
        bold: false,
        indent_level,
        bulleted,
    }
}

#[test]
fn highlight_empty_document() {
    let out = highlight_markdown("");
    assert!(out.is_empty());
}

#[test]
fn highlight_heading_and_paragraph() {
    let out = highlight_markdown("# Title\n\nHello");
    let expected = vec![
        RenderInstruction::LineBreak,
        text_run("Title", Color::Accent, 22, 0, false),
        text_run("Hello", Color::Neutral, 14, 0, false),
    ];
    assert_eq!(out, expected);
}

#[test]
fn highlight_flat_list() {
    let out = highlight_markdown("- a\n- b");
    let expected = vec![
        text_run("a", Color::Neutral, 14, 0, true),
        text_run("b", Color::Neutral, 14, 0, true),
    ];
    assert_eq!(out, expected);
}

#[test]
fn highlight_nested_list_indents() {
    let out = highlight_markdown("- outer\n    - inner");
    assert!(out.contains(&text_run("outer", Color::Neutral, 14, 0, true)));
    assert!(out.contains(&text_run("inner", Color::Neutral, 14, 20, true)));
}

#[test]
fn highlight_level_six_heading() {
    let out = highlight_markdown("###### small");
    let expected = vec![
        RenderInstruction::LineBreak,
        text_run("small", Color::Accent, 12, 0, false),
    ];
    assert_eq!(out, expected);
}

#[test]
fn highlight_same_text_twice_agrees() {
    let text = "# Title\n\n- a\n- b\n\nclosing line";
    let first = highlight_markdown(text);
    let second = highlight_markdown(text);
    assert_eq!(first, second);
}
