//! Input side of the renderer: the markdown parse events it consumes.
//!
//! `MdEvent` is the executable event type handed to the renderer; `SpecEvent`
//! is its mathematical image, with text held as a `Seq<char>`.

use vstd::prelude::*;

verus! {

/// Heading depth, one through six, as markdown knows it.
#[derive(Clone, Copy, Debug, PartialEq, Eq, Structural)]
pub enum HeadingDepth {
    H1,
    H2,
    H3,
    H4,
    H5,
    H6,
}

impl HeadingDepth {
    /// The numeric depth of the heading: `H1` is 1, `H6` is 6.
    pub open spec fn spec_depth(self) -> u8 {
        match self {
            HeadingDepth::H1 => 1,
            HeadingDepth::H2 => 2,
            HeadingDepth::H3 => 3,
            HeadingDepth::H4 => 4,
            HeadingDepth::H5 => 5,
            HeadingDepth::H6 => 6,
        }
    }

    /// The numeric depth of the heading: `H1` is 1, `H6` is 6.
    pub fn depth(self) -> (d: u8)
        ensures
            d == self.spec_depth(),
    {
        match self {
            HeadingDepth::H1 => 1,
            HeadingDepth::H2 => 2,
            HeadingDepth::H3 => 3,
            HeadingDepth::H4 => 4,
            HeadingDepth::H5 => 5,
            HeadingDepth::H6 => 6,
        }
    }
}

/// A block construct opened by a start marker and closed by an end marker.
///
/// Constructs the renderer does not style (block quotes, emphasis spans,
/// code blocks, tables and the rest) all fall under `Other`: their start is
/// ignored and their end resets the style state.
#[derive(Clone, Copy, Debug, PartialEq, Eq, Structural)]
pub enum MdTag {
    Heading(HeadingDepth),
    Paragraph,
    List,
    Item,
    Other,
}

/// One markdown parse event, as the renderer consumes it.
///
/// `Leaf` stands for the leaf events the renderer ignores (inline code,
/// raw html, rules, task list markers).
#[derive(Clone, Debug, PartialEq, Eq)]
pub enum MdEvent {
    Start(MdTag),
    End(MdTag),
    Text(String),
    SoftBreak,
    HardBreak,
    Leaf,
}

/// The mathematical image of an `MdEvent`: text as a sequence of characters.
pub enum SpecEvent {
    Start(MdTag),
    End(MdTag),
    Text(Seq<char>),
    SoftBreak,
    HardBreak,
    Leaf,
}

impl DeepView for MdEvent {
    type V = SpecEvent;

    open spec fn deep_view(&self) -> SpecEvent {
        match self {
            MdEvent::Start(t) => SpecEvent::Start(*t),
            MdEvent::End(t) => SpecEvent::End(*t),
            MdEvent::Text(s) => SpecEvent::Text(s@),
            MdEvent::SoftBreak => SpecEvent::SoftBreak,
            MdEvent::HardBreak => SpecEvent::HardBreak,
            MdEvent::Leaf => SpecEvent::Leaf,
        }
    }
}

impl View for MdEvent {
    type V = SpecEvent;

    open spec fn view(&self) -> SpecEvent {
        self.deep_view()
    }
}

} // verus!
