//! The bridge to the markdown parser.
//!
//! Parsing itself is the outside crate's work: `parse_events` runs
//! pulldown_cmark over the document text and hands back the event stream as
//! the renderer's own event type. What that stream is for a given text is
//! named, not stated: `events_of` stands for it, and `highlight_markdown`'s
//! contract is exact in terms of that name.

use vstd::prelude::*;

use crate::event::{HeadingDepth, MdEvent, MdTag, SpecEvent};
use crate::instruction::RenderInstruction;
use crate::render::{render, render_events};

verus! {

/// The event stream a conformant markdown parse of `text` yields. The
/// stream is a function of the text alone.
pub uninterp spec fn events_of(text: Seq<char>) -> Seq<SpecEvent>;

#[verifier::external_type_specification]
#[verifier::external_body]
pub struct ExEvent<'a>(pulldown_cmark::Event<'a>);

#[verifier::external_type_specification]
#[verifier::external_body]
pub struct ExTag<'a>(pulldown_cmark::Tag<'a>);

#[verifier::external_type_specification]
#[verifier::external_body]
pub struct ExHeadingLevel(pulldown_cmark::HeadingLevel);

/// Relies on pulldown_cmark::HeadingLevel: tells its six variants apart,
/// one arm each.
#[verifier::external_body]
fn convert_level(level: pulldown_cmark::HeadingLevel) -> HeadingDepth {
    match level {
        pulldown_cmark::HeadingLevel::H1 => HeadingDepth::H1,
        pulldown_cmark::HeadingLevel::H2 => HeadingDepth::H2,
        pulldown_cmark::HeadingLevel::H3 => HeadingDepth::H3,
        pulldown_cmark::HeadingLevel::H4 => HeadingDepth::H4,
        pulldown_cmark::HeadingLevel::H5 => HeadingDepth::H5,
        pulldown_cmark::HeadingLevel::H6 => HeadingDepth::H6,
    }
}

/// Relies on pulldown_cmark::Tag: tells the four styled constructs apart
/// from the rest, one arm each, moving only the heading level.
#[verifier::external_body]
fn convert_tag(tag: pulldown_cmark::Tag<'_>) -> MdTag {
    match tag {
        pulldown_cmark::Tag::Heading(level, _, _) => MdTag::Heading(convert_level(level)),
        pulldown_cmark::Tag::Paragraph => MdTag::Paragraph,
        pulldown_cmark::Tag::List(_) => MdTag::List,
        pulldown_cmark::Tag::Item => MdTag::Item,
        _ => MdTag::Other,
    }
}

/// Relies on pulldown_cmark::Event: tells its variants apart, one arm each,
/// moving the tag and the text.
#[verifier::external_body]
fn convert_event(event: pulldown_cmark::Event<'_>) -> MdEvent {
    match event {
        pulldown_cmark::Event::Start(tag) => MdEvent::Start(convert_tag(tag)),
        pulldown_cmark::Event::End(tag) => MdEvent::End(convert_tag(tag)),
        pulldown_cmark::Event::Text(content) => MdEvent::Text(content.to_string()),
        pulldown_cmark::Event::SoftBreak => MdEvent::SoftBreak,
        pulldown_cmark::Event::HardBreak => MdEvent::HardBreak,
        _ => MdEvent::Leaf,
    }
}

/// Relies on pulldown_cmark::Parser::new: the event stream it yields for
/// `text` is finite and depends on the text alone.
#[verifier::external_body]
pub fn parse_events(text: &str) -> (events: Vec<MdEvent>)
    ensures
        events.deep_view() == events_of(text@),
{
    pulldown_cmark::Parser::new(text).map(convert_event).collect()
}

/// One full preview pass: parse the document text and render the event
/// stream, from a fresh style state.
pub fn highlight_markdown(text: &str) -> (out: Vec<RenderInstruction>)
    ensures
        out.deep_view() == render_events(events_of(text@)),
{
    let events = parse_events(text);
    render(&events)
}

} // verus!
