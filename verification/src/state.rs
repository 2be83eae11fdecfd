//! The renderer's mutable style context and its transition rules.
//!
//! `StyleState` is created fresh at the start of every render pass and
//! mutated in place as events stream through. `step_state` is the exact
//! transition relation; `emitted` gives the instructions a single event
//! produces under a given state. Both are the reference the executable
//! renderer is proved against.

use vstd::prelude::*;

use crate::event::{HeadingDepth, MdTag, SpecEvent};
use crate::instruction::{Color, SpecInstruction};

verus! {

/// The base font size, restored on entering a paragraph outside a list and
/// on the end of any unstyled construct.
pub const BASE_FONT_SIZE: u8 = 14;

/// The style context carried across one render pass.
#[derive(Clone, Copy, Debug, PartialEq, Eq, Structural)]
pub struct StyleState {
    /// Color of the next text run.
    pub color: Color,
    /// Font size of the next text run.
    pub font_size: u8,
    /// Whether the next text run is italic.
    pub italic: bool,
    /// Whether the next text run is bold.
    pub bold: bool,
    /// How many lists are currently open; never negative, and an end-of-list
    /// marker with no open list leaves it at zero.
    pub list_depth: u32,
    /// Whether a list item is currently open.
    pub in_item: bool,
}

/// The state every render pass starts from: neutral color, base size, no
/// emphasis, no open list.
pub open spec fn init_state() -> StyleState {
    StyleState {
        color: Color::Neutral,
        font_size: BASE_FONT_SIZE,
        italic: false,
        bold: false,
        list_depth: 0,
        in_item: false,
    }
}

/// The font size a heading of the given level is drawn at: twenty-four less
/// twice the depth, so level one gives 22 and level six gives 12.
pub open spec fn spec_heading_font_size(level: HeadingDepth) -> u8 {
    (24 - 2 * level.spec_depth()) as u8
}

/// The indentation of a text run under the given state: twenty units per
/// list level beyond the first while a list item is open, none otherwise.
pub open spec fn indent_of(s: StyleState) -> u64 {
    if s.in_item && s.list_depth > 0 {
        (20 * (s.list_depth - 1)) as u64
    } else {
        0
    }
}

/// How one event changes the style state.
///
/// A start-of-heading marker sets the heading size and the accent color and
/// closes any open item; a start-of-paragraph marker outside a list item
/// restores the base style; list markers track the nesting depth, which
/// saturates rather than overflow or underflow; the end of any construct
/// other than a list or an item resets color, size and both emphasis flags.
pub open spec fn step_state(s: StyleState, e: SpecEvent) -> StyleState {
    match e {
        SpecEvent::Start(MdTag::Heading(level)) => StyleState {
            font_size: spec_heading_font_size(level),
            color: Color::Accent,
            in_item: false,
            ..s
        },
        SpecEvent::Start(MdTag::Paragraph) => if !s.in_item {
            StyleState { font_size: BASE_FONT_SIZE, color: Color::Neutral, ..s }
        } else {
            s
        },
        SpecEvent::Start(MdTag::List) => StyleState {
            list_depth: if s.list_depth < u32::MAX {
                (s.list_depth + 1) as u32
            } else {
                s.list_depth
            },
            ..s
        },
        SpecEvent::End(MdTag::List) => StyleState {
            list_depth: if s.list_depth > 0 {
                (s.list_depth - 1) as u32
            } else {
                0
            },
            in_item: false,
            ..s
        },
        SpecEvent::Start(MdTag::Item) => StyleState { in_item: true, ..s },
        SpecEvent::End(MdTag::Item) => StyleState { in_item: false, ..s },
        SpecEvent::End(_) => StyleState {
            color: Color::Neutral,
            font_size: BASE_FONT_SIZE,
            italic: false,
            bold: false,
            ..s
        },
        _ => s,
    }
}

/// The instructions one event emits under the given state: a line break for
/// a start-of-heading marker or either break event, a fully styled text run
/// for a text event, nothing for anything else.
pub open spec fn emitted(s: StyleState, e: SpecEvent) -> Seq<SpecInstruction> {
    match e {
        SpecEvent::Start(MdTag::Heading(_)) => seq![SpecInstruction::LineBreak],
        SpecEvent::SoftBreak | SpecEvent::HardBreak => seq![SpecInstruction::LineBreak],
        SpecEvent::Text(content) => seq![
            SpecInstruction::TextRun {
                content: content,
                color: s.color,
                font_size: s.font_size,
                italic: s.italic,
                bold: s.bold,
                indent_level: indent_of(s),
                bulleted: s.in_item,
            },
        ],
        _ => seq![],
    }
}

impl StyleState {
    /// A fresh style context for the start of a render pass.
    pub fn init() -> (s: StyleState)
        ensures
            s == init_state(),
    {
        StyleState {
            color: Color::Neutral,
            font_size: BASE_FONT_SIZE,
            italic: false,
            bold: false,
            list_depth: 0,
            in_item: false,
        }
    }
}

/// The heading font size, executably.
pub fn heading_font_size(level: HeadingDepth) -> (size: u8)
    ensures
        size == spec_heading_font_size(level),
{
    24 - 2 * level.depth()
}

} // verus!
