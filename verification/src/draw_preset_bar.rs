//! Preset indicator bar: active preset name, modified flag, shortcut hints.

use crate::button_map::{ButtonRenderMap, Hit, TuiButton};
use crate::display_width::{line_width, width_of_line};
use crate::geometry::{plus16, Rect};
use crate::scene::{line1, line_op, sp, Line, LineV, Scene};
use crate::style::{accent, bold, fg, muted, on, plain, Style, Tone};
use crate::text::{blanks, cat3, count, low16, minus, plus, spaces, to_u16};
use vstd::prelude::*;

verus! {

/// The preset in use.
#[derive(Debug)]
pub struct PresetState {
    pub active_preset: Option<String>,
    /// The settings differ from the preset.
    pub modified: bool,
}

/// The left part of the bar: the preset in use.
pub open spec fn preset_left(preset: PresetState) -> LineV {
    let front = seq![sp("  preset  "@, muted())];
    match preset.active_preset {
        Some(name) => {
            let named = front.push(
                sp(" "@ + name@ + " "@, bold(on(Tone::PillPresetFg, Tone::PillPresetBg))),
            );
            if preset.modified {
                named.push(sp("  "@, plain())).push(sp("(modified)"@, faint()))
            } else {
                named
            }
        },
        None => front.push(sp("none"@, fg(Tone::TextDim))),
    }
}

/// Faint text.
#[verifier::allow_in_spec]
pub fn faint() -> Style
    returns
        (Style { dim: true, ..fg(Tone::TextMuted) }),
{
    Style { dim: true, ..fg(Tone::TextMuted) }
}

fn preset_left_line(preset: &PresetState) -> (r: Line)
    ensures
        r@ == preset_left(*preset),
{
    let mut line = line1("  preset  ", muted());
    match &preset.active_preset {
        Some(name) => {
            line.put(
                cat3(" ", name.as_str(), " ").as_str(),
                bold(on(Tone::PillPresetFg, Tone::PillPresetBg)),
            );
            if preset.modified {
                line.put("  ", plain());
                line.put("(modified)", faint());
            }
        },
        None => {
            line.put("none", fg(Tone::TextDim));
        },
    }
    line
}

/// The spaces between the two parts of the bar.
pub open spec fn preset_gap(preset: PresetState, w: int) -> int {
    minus(w, plus(plus(width_of_line(preset_left(preset)), 17), 2))
}

/// The bar.
pub open spec fn preset_line(preset: PresetState, w: int) -> LineV {
    preset_left(preset) + seq![
        sp(blanks(preset_gap(preset, w) as nat), plain()),
        sp("p"@, muted()),
        sp(" presets"@, accent()),
        sp("  "@, plain()),
        sp("s"@, muted()),
        sp(" save"@, accent()),
    ]
}

/// Where the hints start.
pub open spec fn hints_x(preset: PresetState, area: Rect) -> int {
    plus16(
        area.x as int,
        low16(plus(width_of_line(preset_left(preset)), preset_gap(preset, area.width as int))),
    )
}

/// The bar as buttons: the preset's name and the two hints.
pub open spec fn preset_hits(preset: PresetState, area: Rect) -> Seq<Hit> {
    (match preset.active_preset {
        Some(name) => seq![
            (
                TuiButton::PresetsButton,
                Rect {
                    x: plus16(area.x as int, 10) as u16,
                    y: area.y,
                    width: low16((" "@ + name@ + " "@).len() as int) as u16,
                    height: 1,
                },
            ),
        ],
        None => Seq::empty(),
    }) + seq![
        (
            TuiButton::PresetsButton,
            Rect { x: hints_x(preset, area) as u16, y: area.y, width: 9, height: 1 },
        ),
        (
            TuiButton::SaveButton,
            Rect {
                x: plus16(hints_x(preset, area), 11) as u16,
                y: area.y,
                width: 6,
                height: 1,
            },
        ),
    ]
}

/// Draw the preset bar row and register clickable regions.
pub fn draw_preset_bar(
    f: &mut Scene,
    area: Rect,
    preset: &PresetState,
    buttons: &mut ButtonRenderMap,
)
    ensures
        final(f)@ == if area.width >= 20 {
            old(f)@.push(line_op(area, preset_line(*preset, area.width as int)))
        } else {
            old(f)@
        },
        final(buttons)@ == if area.width >= 20 {
            old(buttons)@ + preset_hits(*preset, area)
        } else {
            old(buttons)@
        },
{
    if area.width < 20 {
        return;
    }
    let mut line = preset_left_line(preset);
    let left: usize = line_width(&line);
    let used: usize = left.saturating_add(17).saturating_add(2);
    let gap: usize = (area.width as usize).saturating_sub(used);
    line.put(spaces(gap).as_str(), plain());
    line.put("p", muted());
    line.put(" presets", accent());
    line.put("  ", plain());
    line.put("s", muted());
    line.put(" save", accent());
    proof {
        assert(line@ =~= preset_line(*preset, area.width as int));
    }
    f.line(area, line);
    let mut hits = ButtonRenderMap::new();
    match &preset.active_preset {
        Some(name) => {
            let pill = cat3(" ", name.as_str(), " ");
            hits.record_button(
                TuiButton::PresetsButton,
                Rect {
                    x: area.x.saturating_add(10),
                    y: area.y,
                    width: to_u16(count(pill.as_str())),
                    height: 1,
                },
            );
        },
        None => {},
    }
    let x: u16 = area.x.saturating_add(to_u16(left.saturating_add(gap)));
    hits.record_button(TuiButton::PresetsButton, Rect { x, y: area.y, width: 9, height: 1 });
    hits.record_button(
        TuiButton::SaveButton,
        Rect { x: x.saturating_add(11), y: area.y, width: 6, height: 1 },
    );
    proof {
        assert(hits@ =~= preset_hits(*preset, area));
    }
    buttons.append(hits);
}

} // verus!
