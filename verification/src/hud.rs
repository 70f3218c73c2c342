//! Placement of the HUD text drawn over the upscaled image: the status label (no model,
//! or the model's file name) and the controls reminder in the top-right corner.

use vstd::prelude::*;

verus! {

/// Font size of the HUD text.
pub const DEFAULT_GUI_FONT_SIZE: i32 = 32;

/// Spacing between the glyphs of the HUD text.
pub const DEFAULT_GUI_FONT_SPACING: i32 = 2;

/// Which status label the HUD shows.
#[derive(Clone, Copy, PartialEq, Eq, Debug, Structural)]
pub enum HudLabel {
    /// "No model loaded.", at the left edge, just above the middle of the window.
    NoModel,
    /// The file name of the loaded model, anchored near the bottom-right corner.
    FileName,
}

/// A text anchor in window pixels.
#[derive(Clone, Copy, PartialEq, Eq, Debug, Structural)]
pub struct TextPos {
    pub x: i32,
    pub y: i32,
}

/// Where the HUD texts of one frame go.
#[derive(Clone, Copy, Debug)]
pub struct HudLayout {
    /// The status label and its anchor, if one is shown.
    pub label: Option<(HudLabel, TextPos)>,
    /// Anchor of the controls reminder.
    pub help: TextPos,
}

/// Half of `v`, rounded toward zero (integer division as the machine does it).
pub open spec fn half_toward_zero(v: int) -> int {
    if v >= 0 {
        v / 2
    } else {
        -((-v) / 2)
    }
}

/// The HUD layout for a `win_w` by `win_h` window, where the controls reminder is
/// `help_width` pixels wide. Without a model the "no model" label sits 20 pixels from the
/// left, 18 pixels above the middle; with a model loaded from a path, the file name is
/// anchored 20 pixels from the right and 22 from the bottom. The reminder is anchored
/// 8 pixels from the top and 8 pixels short of the right edge.
pub fn hud_layout(
    win_w: i32,
    win_h: i32,
    help_width: i32,
    model_loaded: bool,
    has_path: bool,
) -> (layout: HudLayout)
    requires
        model_loaded && has_path ==> win_w >= i32::MIN + 20 && win_h >= i32::MIN + 22,
        i32::MIN + 8 <= win_w - help_width <= i32::MAX,
    ensures
        !model_loaded ==> layout.label == Some(
            (HudLabel::NoModel, TextPos { x: 20, y: (half_toward_zero(win_h as int) - 18) as i32 }),
        ),
        !model_loaded ==> (layout.label matches Some((HudLabel::NoModel, pos)) && pos.x == 20 && (
        0 <= win_h ==> 2 * (pos.y + 18) <= win_h < 2 * (pos.y + 18) + 2) && (win_h < 0 ==> 2 * (
        pos.y + 18) - 2 < win_h <= 2 * (pos.y + 18))),
        model_loaded && has_path ==> layout.label == Some(
            (HudLabel::FileName, TextPos { x: (win_w - 20) as i32, y: (win_h - 22) as i32 }),
        ),
        model_loaded && !has_path ==> layout.label is None,
        layout.help == (TextPos { x: (win_w - help_width - 8) as i32, y: 8 }),
{
    let label = if !model_loaded {
        let cy = win_h / 2;
        Some((HudLabel::NoModel, TextPos { x: 20, y: cy - 18 }))
    } else if has_path {
        Some((HudLabel::FileName, TextPos { x: win_w - 20, y: win_h - 22 }))
    } else {
        None
    };
    HudLayout { label, help: TextPos { x: win_w - help_width - 8, y: 8 } }
}

/// Halving toward zero: for a non-negative value, twice the half is the value or one
/// less; for a negative value, twice the half is the value or one more.
pub proof fn lemma_half_toward_zero(v: int)
    ensures
        0 <= v ==> 0 <= 2 * half_toward_zero(v) <= v < 2 * half_toward_zero(v) + 2,
        v < 0 ==> 2 * half_toward_zero(v) - 2 < v <= 2 * half_toward_zero(v) <= 0,
{
}

} // verus!
