//! Rows of choices of which one is selected.

use crate::scene::{sp, Line, LineV};
use crate::style::{bold, dimmed, fg, on, plain, Style, Tone};
use crate::text::cat3;
use vstd::prelude::*;

verus! {

/// One choice.
#[derive(Debug)]
pub struct PillOption {
    pub label: String,
    pub enabled: bool,
}

/// Choices of which one is selected.
#[derive(Debug)]
pub struct PillState {
    pub options: Vec<PillOption>,
    pub selected: usize,
}

/// The style of a choice.
#[verifier::allow_in_spec]
pub fn option_style(enabled: bool, selected: bool, focused: bool) -> Style
    returns
        (if !enabled {
            dimmed()
        } else if selected {
            bold(on(Tone::PillActiveFg, Tone::PillActiveBg))
        } else if focused {
            fg(Tone::TextMuted)
        } else {
            dimmed()
        }),
{
    if !enabled {
        dimmed()
    } else if selected {
        bold(on(Tone::PillActiveFg, Tone::PillActiveBg))
    } else if focused {
        fg(Tone::TextMuted)
    } else {
        dimmed()
    }
}

/// `i` as a choice, behind a gap unless it is the first shown.
pub open spec fn option_spans(state: PillState, i: int, first: bool, focused: bool) -> LineV {
    let option = state.options@[i];
    let pill = sp(
        " "@ + option.label@ + " "@,
        option_style(option.enabled, i == state.selected, focused),
    );
    if first {
        seq![pill]
    } else {
        seq![sp("  "@, plain()), pill]
    }
}

fn option_line(state: &PillState, i: usize, first: bool, focused: bool) -> (r: Line)
    requires
        i < state.options@.len(),
    ensures
        r@ == option_spans(*state, i as int, first, focused),
{
    let option = &state.options[i];
    let mut line = Line::new();
    if !first {
        line.put("  ", plain());
    }
    line.put(
        cat3(" ", option.label.as_str(), " ").as_str(),
        option_style(option.enabled, i == state.selected, focused),
    );
    line
}

/// The first `n` choices.
pub open spec fn pill_spans(state: PillState, focused: bool, n: nat) -> LineV
    decreases n,
{
    if n == 0 || n > state.options@.len() {
        Seq::empty()
    } else {
        pill_spans(state, focused, (n - 1) as nat) + option_spans(state, n - 1, n == 1, focused)
    }
}

/// All choices.
pub open spec fn all_pills(state: PillState, focused: bool) -> LineV {
    pill_spans(state, focused, state.options@.len())
}

/// The choices, from left to right, two columns apart.
pub fn render_pill_spans(state: &PillState, focused: bool) -> (r: Line)
    ensures
        r@ == all_pills(*state, focused),
{
    let mut line = Line::new();
    for i in 0..state.options.len()
        invariant
            line@ == pill_spans(*state, focused, i as nat),
    {
        line.append(option_line(state, i, i == 0, focused));
    }
    line
}

/// How many of the first `n` choices can be selected.
pub open spec fn enabled_count(state: PillState, n: nat) -> nat
    decreases n,
{
    if n == 0 || n > state.options@.len() {
        0
    } else {
        enabled_count(state, (n - 1) as nat) + if state.options@[n - 1].enabled { 1nat } else { 0 }
    }
}

/// Those of the first `n` choices that can be selected.
pub open spec fn enabled_spans(state: PillState, focused: bool, n: nat) -> LineV
    decreases n,
{
    if n == 0 || n > state.options@.len() {
        Seq::empty()
    } else if state.options@[n - 1].enabled {
        enabled_spans(state, focused, (n - 1) as nat) + option_spans(
            state,
            n - 1,
            enabled_count(state, (n - 1) as nat) == 0,
            focused,
        )
    } else {
        enabled_spans(state, focused, (n - 1) as nat)
    }
}

/// The choices that can be selected, from left to right, two columns apart.
pub open spec fn enabled_pills(state: PillState, focused: bool) -> LineV {
    enabled_spans(state, focused, state.options@.len())
}

/// The choices that can be selected, from left to right, two columns apart.
pub fn render_enabled_pill_spans(state: &PillState, focused: bool) -> (r: Line)
    ensures
        r@ == enabled_pills(*state, focused),
{
    let mut line = Line::new();
    let mut none_yet = true;
    for i in 0..state.options.len()
        invariant
            line@ == enabled_spans(*state, focused, i as nat),
            none_yet == (enabled_count(*state, i as nat) == 0),
    {
        if state.options[i].enabled {
            line.append(option_line(state, i, none_yet, focused));
            none_yet = false;
        }
    }
    line
}

} // verus!
