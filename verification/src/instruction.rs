//! Output side of the renderer: the drawing instructions it emits.
//!
//! `RenderInstruction` is the executable instruction handed to the drawing
//! surface; `SpecInstruction` is its mathematical image.

use vstd::prelude::*;

verus! {

/// A semantic color. The drawing surface decides the concrete shade;
/// headings are accented, everything else is neutral foreground.
#[derive(Clone, Copy, Debug, PartialEq, Eq, Structural)]
pub enum Color {
    Neutral,
    Accent,
}

/// One unit of drawing work: a styled run of text, or an advance to a new
/// line.
#[derive(Clone, Debug, PartialEq, Eq)]
pub enum RenderInstruction {
    TextRun {
        content: String,
        color: Color,
        font_size: u8,
        italic: bool,
        bold: bool,
        indent_level: u64,
        bulleted: bool,
    },
    LineBreak,
}

/// The mathematical image of a `RenderInstruction`: text as a sequence of
/// characters.
pub enum SpecInstruction {
    TextRun {
        content: Seq<char>,
        color: Color,
        font_size: u8,
        italic: bool,
        bold: bool,
        indent_level: u64,
        bulleted: bool,
    },
    LineBreak,
}

impl DeepView for RenderInstruction {
    type V = SpecInstruction;

    open spec fn deep_view(&self) -> SpecInstruction {
        match self {
            RenderInstruction::TextRun {
                content,
                color,
                font_size,
                italic,
                bold,
                indent_level,
                bulleted,
            } => SpecInstruction::TextRun {
                content: content@,
                color: *color,
                font_size: *font_size,
                italic: *italic,
                bold: *bold,
                indent_level: *indent_level,
                bulleted: *bulleted,
            },
            RenderInstruction::LineBreak => SpecInstruction::LineBreak,
        }
    }
}

impl View for RenderInstruction {
    type V = SpecInstruction;

    open spec fn view(&self) -> SpecInstruction {
        self.deep_view()
    }
}

} // verus!
