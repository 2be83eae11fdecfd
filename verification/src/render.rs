//! The renderer: one pass over an event sequence, emitting instructions.
//!
//! `render_events` is the mathematical renderer, a fold of `step_state` and
//! `emitted` over the event sequence from the initial state. `render` is the
//! executable renderer, proved to produce exactly that sequence.

use vstd::prelude::*;

use crate::event::{MdEvent, MdTag, SpecEvent};
use crate::instruction::{Color, RenderInstruction, SpecInstruction};
use crate::state::{emitted, heading_font_size, indent_of, init_state, step_state, StyleState, BASE_FONT_SIZE};

verus! {

/// The state reached by stepping through `events` from `s`.
pub open spec fn state_from(s: StyleState, events: Seq<SpecEvent>) -> StyleState
    decreases events.len(),
{
    if events.len() == 0 {
        s
    } else {
        state_from(step_state(s, events[0]), events.drop_first())
    }
}

/// The instructions emitted while stepping through `events` from `s`.
pub open spec fn render_from(s: StyleState, events: Seq<SpecEvent>) -> Seq<SpecInstruction>
    decreases events.len(),
{
    if events.len() == 0 {
        Seq::empty()
    } else {
        emitted(s, events[0]) + render_from(step_state(s, events[0]), events.drop_first())
    }
}

/// One full render pass: the instructions emitted for `events`, starting
/// from a fresh style state.
pub open spec fn render_events(events: Seq<SpecEvent>) -> Seq<SpecInstruction> {
    render_from(init_state(), events)
}

/// Stepping through a concatenation reaches the state the second half
/// yields from where the first half left off.
pub proof fn lemma_state_from_concat(s: StyleState, a: Seq<SpecEvent>, b: Seq<SpecEvent>)
    ensures
        state_from(s, a + b) == state_from(state_from(s, a), b),
    decreases a.len(),
{
    if a.len() == 0 {
        assert(a + b =~= b);
    } else {
        assert((a + b).drop_first() =~= a.drop_first() + b);
        lemma_state_from_concat(step_state(s, a[0]), a.drop_first(), b);
    }
}

/// A render pass over a concatenation emits the first half's instructions
/// followed by the second half's, the latter from the state the first half
/// reaches.
pub proof fn lemma_render_from_concat(s: StyleState, a: Seq<SpecEvent>, b: Seq<SpecEvent>)
    ensures
        render_from(s, a + b) == render_from(s, a) + render_from(state_from(s, a), b),
    decreases a.len(),
{
    if a.len() == 0 {
        assert(a + b =~= b);
        assert(render_from(s, a) + render_from(s, b) =~= render_from(s, b));
    } else {
        assert((a + b).drop_first() =~= a.drop_first() + b);
        lemma_render_from_concat(step_state(s, a[0]), a.drop_first(), b);
        assert(render_from(s, a + b) =~= render_from(s, a) + render_from(state_from(s, a), b));
    }
}

/// Stepping through a single event is one application of the transition
/// relation, and emits that event's instructions.
pub proof fn lemma_step_once(s: StyleState, e: SpecEvent)
    ensures
        state_from(s, seq![e]) == step_state(s, e),
        render_from(s, seq![e]) == emitted(s, e),
{
    let single = seq![e];
    assert(single.drop_first() =~= Seq::<SpecEvent>::empty());
    assert(state_from(step_state(s, e), single.drop_first()) == step_state(s, e));
    assert(render_from(step_state(s, e), single.drop_first()) =~= Seq::<SpecInstruction>::empty());
    assert(render_from(s, single) =~= emitted(s, e));
}

/// Extending a prefix of `events` by its next event steps the state once
/// and appends that event's instructions.
pub proof fn lemma_render_snoc(s: StyleState, events: Seq<SpecEvent>, i: int)
    requires
        0 <= i < events.len(),
    ensures
        state_from(s, events.take(i + 1)) == step_state(state_from(s, events.take(i)), events[i]),
        render_from(s, events.take(i + 1)) == render_from(s, events.take(i)) + emitted(
            state_from(s, events.take(i)),
            events[i],
        ),
{
    assert(events.take(i + 1) =~= events.take(i) + seq![events[i]]);
    lemma_state_from_concat(s, events.take(i), seq![events[i]]);
    lemma_render_from_concat(s, events.take(i), seq![events[i]]);
    lemma_step_once(state_from(s, events.take(i)), events[i]);
}

/// One render pass over `events`, from a fresh style state.
///
/// The output is exactly the mathematical renderer's: each text event
/// becomes a text run styled by the state the preceding events built, each
/// start-of-heading and each break event becomes a line break.
pub fn render(events: &Vec<MdEvent>) -> (out: Vec<RenderInstruction>)
    ensures
        out.deep_view() == render_events(events.deep_view()),
{
    let ghost evs: Seq<SpecEvent> = events.deep_view();
    let mut state = StyleState::init();
    let mut out: Vec<RenderInstruction> = Vec::new();
    let n = events.len();
    assert(evs.take(0) =~= Seq::<SpecEvent>::empty());
    for i in 0..n
        invariant
            n == events.len(),
            evs == events.deep_view(),
            state == state_from(init_state(), evs.take(i as int)),
            out.deep_view() == render_from(init_state(), evs.take(i as int)),
    {
        let ghost prev = evs.take(i as int);
        proof {
            lemma_render_snoc(init_state(), evs, i as int);
            assert(evs[i as int] == events[i as int].deep_view());
        }
        match &events[i] {
            MdEvent::Start(tag) => {
                match tag {
                    MdTag::Heading(level) => {
                        state.font_size = heading_font_size(*level);
                        state.color = Color::Accent;
                        state.in_item = false;
                        out.push(RenderInstruction::LineBreak);
                    },
                    MdTag::Paragraph => {
                        if !state.in_item {
                            state.font_size = BASE_FONT_SIZE;
                            state.color = Color::Neutral;
                        }
                    },
                    MdTag::List => {
                        if state.list_depth < u32::MAX {
                            state.list_depth = state.list_depth + 1;
                        }
                    },
                    MdTag::Item => {
                        state.in_item = true;
                    },
                    MdTag::Other => {},
                }
            },
            MdEvent::End(tag) => {
                match tag {
                    MdTag::List => {
                        if state.list_depth > 0 {
                            state.list_depth = state.list_depth - 1;
                        }
                        state.in_item = false;
                    },
                    MdTag::Item => {
                        state.in_item = false;
                    },
                    _ => {
                        state.color = Color::Neutral;
                        state.font_size = BASE_FONT_SIZE;
                        state.italic = false;
                        state.bold = false;
                    },
                }
            },
            MdEvent::Text(content) => {
                let indent: u64 = if state.in_item && state.list_depth > 0 {
                    (state.list_depth as u64 - 1) * 20
                } else {
                    0
                };
                assert(indent == indent_of(state));
                out.push(RenderInstruction::TextRun {
                    content: content.clone(),
                    color: state.color,
                    font_size: state.font_size,
                    italic: state.italic,
                    bold: state.bold,
                    indent_level: indent,
                    bulleted: state.in_item,
                });
            },
            MdEvent::SoftBreak | MdEvent::HardBreak => {
                out.push(RenderInstruction::LineBreak);
            },
            MdEvent::Leaf => {},
        }
        proof {
            assert(state == step_state(state_from(init_state(), prev), evs[i as int]));
            assert(out.deep_view() =~= render_from(init_state(), prev) + emitted(
                state_from(init_state(), prev),
                evs[i as int],
            ));
        }
    }
    proof {
        assert(evs.take(n as int) =~= evs);
    }
    out
}

} // verus!
