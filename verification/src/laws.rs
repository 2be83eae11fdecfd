//! What holds of every render pass, stated and proved once and for all:
//! where line breaks come from, how text runs are indented and bulleted,
//! that a pass is a pure function of its events, and which sizes headings
//! and paragraphs are drawn at.

use vstd::prelude::*;

use crate::event::{HeadingDepth, MdTag, SpecEvent};
use crate::instruction::{Color, SpecInstruction};
use crate::render::{
    lemma_render_from_concat, lemma_state_from_concat, render_events, render_from, state_from,
};
use crate::state::{emitted, indent_of, init_state, step_state, StyleState, BASE_FONT_SIZE};

verus! {

/// Whether an event emits a line break: a start-of-heading marker, a soft
/// break or a hard break.
pub open spec fn is_break_event(e: SpecEvent) -> bool {
    ||| e matches SpecEvent::Start(MdTag::Heading(_))
    ||| e is SoftBreak
    ||| e is HardBreak
}

/// How many of the instructions are line breaks.
pub open spec fn spec_break_instruction_count(instrs: Seq<SpecInstruction>) -> nat
    decreases instrs.len(),
{
    if instrs.len() == 0 {
        0
    } else {
        (if instrs[0] is LineBreak {
            1nat
        } else {
            0nat
        }) + spec_break_instruction_count(instrs.drop_first())
    }
}

/// How many of the events emit a line break.
pub open spec fn spec_break_event_count(events: Seq<SpecEvent>) -> nat
    decreases events.len(),
{
    if events.len() == 0 {
        0
    } else {
        (if is_break_event(events[0]) {
            1nat
        } else {
            0nat
        }) + spec_break_event_count(events.drop_first())
    }
}

proof fn lemma_break_count_concat(a: Seq<SpecInstruction>, b: Seq<SpecInstruction>)
    ensures
        spec_break_instruction_count(a + b) == spec_break_instruction_count(a)
            + spec_break_instruction_count(b),
    decreases a.len(),
{
    if a.len() == 0 {
        assert(a + b =~= b);
    } else {
        assert((a + b).drop_first() =~= a.drop_first() + b);
        lemma_break_count_concat(a.drop_first(), b);
    }
}

proof fn lemma_break_count_emitted(s: StyleState, e: SpecEvent)
    ensures
        spec_break_instruction_count(emitted(s, e)) == if is_break_event(e) {
            1nat
        } else {
            0nat
        },
{
    let out = emitted(s, e);
    if out.len() > 0 {
        assert(out.drop_first() =~= Seq::<SpecInstruction>::empty());
        assert(spec_break_instruction_count(out.drop_first()) == 0);
    }
}

proof fn lemma_break_count_from(s: StyleState, events: Seq<SpecEvent>)
    ensures
        spec_break_instruction_count(render_from(s, events)) == spec_break_event_count(events),
    decreases events.len(),
{
    if events.len() > 0 {
        lemma_break_count_concat(
            emitted(s, events[0]),
            render_from(step_state(s, events[0]), events.drop_first()),
        );
        lemma_break_count_emitted(s, events[0]);
        lemma_break_count_from(step_state(s, events[0]), events.drop_first());
    }
}

/// A render pass emits exactly one line break per start-of-heading marker,
/// soft break and hard break, whatever else the events hold.
pub proof fn lemma_line_break_count(events: Seq<SpecEvent>)
    ensures
        spec_break_instruction_count(render_events(events)) == spec_break_event_count(events),
{
    lemma_break_count_from(init_state(), events);
}

/// A text event becomes exactly one text run, styled by the state the
/// preceding events built: it stands right after the instructions of those
/// events and carries their color, size, emphasis, indentation and bullet.
pub proof fn lemma_text_run(events: Seq<SpecEvent>, i: int, content: Seq<char>)
    requires
        0 <= i < events.len(),
        events[i] == SpecEvent::Text(content),
    ensures
        ({
            let s = state_from(init_state(), events.take(i));
            let out = render_events(events);
            let pos = render_from(init_state(), events.take(i)).len() as int;
            &&& pos < out.len()
            &&& out[pos] == SpecInstruction::TextRun {
                content,
                color: s.color,
                font_size: s.font_size,
                italic: s.italic,
                bold: s.bold,
                indent_level: indent_of(s),
                bulleted: s.in_item,
            }
        }),
{
    let prefix = events.take(i);
    let suffix = events.skip(i);
    assert(events =~= prefix + suffix);
    lemma_render_from_concat(init_state(), prefix, suffix);
    lemma_state_from_concat(init_state(), prefix, suffix);
    let s = state_from(init_state(), prefix);
    assert(suffix[0] == events[i]);
    assert(render_from(s, suffix) == emitted(s, suffix[0]) + render_from(
        step_state(s, suffix[0]),
        suffix.drop_first(),
    ));
    assert(render_events(events)[render_from(init_state(), prefix).len() as int] == render_from(
        s,
        suffix,
    )[0]);
}

/// A text event inside a list item, with `depth` lists open, becomes a
/// bulleted text run indented twenty units per list level beyond the first.
pub proof fn lemma_text_in_list_item(events: Seq<SpecEvent>, i: int, content: Seq<char>, depth: u32)
    requires
        0 <= i < events.len(),
        events[i] == SpecEvent::Text(content),
        state_from(init_state(), events.take(i)).in_item,
        state_from(init_state(), events.take(i)).list_depth == depth,
        depth >= 1,
    ensures
        ({
            let s = state_from(init_state(), events.take(i));
            let out = render_events(events);
            let pos = render_from(init_state(), events.take(i)).len() as int;
            &&& pos < out.len()
            &&& out[pos] == SpecInstruction::TextRun {
                content,
                color: s.color,
                font_size: s.font_size,
                italic: s.italic,
                bold: s.bold,
                indent_level: (20 * (depth - 1)) as u64,
                bulleted: true,
            }
        }),
{
    lemma_text_run(events, i, content);
}

/// A text event outside any list item becomes an unindented, unbulleted
/// text run.
pub proof fn lemma_text_top_level(events: Seq<SpecEvent>, i: int, content: Seq<char>)
    requires
        0 <= i < events.len(),
        events[i] == SpecEvent::Text(content),
        !state_from(init_state(), events.take(i)).in_item,
    ensures
        ({
            let s = state_from(init_state(), events.take(i));
            let out = render_events(events);
            let pos = render_from(init_state(), events.take(i)).len() as int;
            &&& pos < out.len()
            &&& out[pos] == SpecInstruction::TextRun {
                content,
                color: s.color,
                font_size: s.font_size,
                italic: s.italic,
                bold: s.bold,
                indent_level: 0,
                bulleted: false,
            }
        }),
{
    lemma_text_run(events, i, content);
}

/// Two render passes over the same events agree instruction for
/// instruction: each pass starts from a fresh style state, so the output is
/// a function of the events alone.
pub proof fn lemma_two_passes_agree(
    events: Seq<SpecEvent>,
    first: Seq<SpecInstruction>,
    second: Seq<SpecInstruction>,
)
    requires
        first == render_events(events),
        second == render_events(events),
    ensures
        first == second,
{
}

/// A level-one heading is drawn at size 22 in the accent color, a level-six
/// heading at size 12, and a paragraph entered outside a list item restores
/// the base size and the neutral color.
pub proof fn lemma_heading_and_paragraph_sizes(s: StyleState)
    ensures
        step_state(s, SpecEvent::Start(MdTag::Heading(HeadingDepth::H1))).font_size == 22,
        step_state(s, SpecEvent::Start(MdTag::Heading(HeadingDepth::H1))).color == Color::Accent,
        step_state(s, SpecEvent::Start(MdTag::Heading(HeadingDepth::H6))).font_size == 12,
        !s.in_item ==> step_state(s, SpecEvent::Start(MdTag::Paragraph)).font_size
            == BASE_FONT_SIZE,
        !s.in_item ==> step_state(s, SpecEvent::Start(MdTag::Paragraph)).color == Color::Neutral,
{
}

} // verus!
