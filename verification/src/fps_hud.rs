//! The frame-rate HUD: whether it is shown, on which output, where, and its two metric lines.
//! Font size and opacities are fractional and are added by the renderer-facing caller.

#[allow(unused_imports)]
use vstd::prelude::*;
use crate::model::RenderRect;
use crate::text::{decimal, u32_to_string};

verus! {

/// A frame-rate metric: unknown until enough samples arrived, else frames per second.
#[derive(Clone, Copy, Debug, PartialEq, Eq, Structural)]
pub enum FpsHudMetricValue {
    Unavailable,
    Fps(u32),
}

/// The HUD as drawn on one output.
#[derive(Clone, Debug, PartialEq, Eq)]
pub struct FpsHud {
    pub output_id: u64,
    pub panel: RenderRect,
    pub text_x: i32,
    pub present_y: i32,
    pub loop_y: i32,
    pub present_label: String,
    pub loop_label: String,
    /// Stacking order of the panel; the text lines sit one above it.
    pub z_index: i32,
}

/// Text of a metric value.
pub open spec fn metric_text(metric: FpsHudMetricValue) -> Seq<char> {
    match metric {
        FpsHudMetricValue::Unavailable => "--"@,
        FpsHudMetricValue::Fps(fps) => decimal(fps as nat),
    }
}

/// One metric line: the label, a space, and the value.
pub open spec fn metric_line(label: Seq<char>, metric: FpsHudMetricValue) -> Seq<char> {
    label + " "@ + metric_text(metric)
}

/// Formats one metric line.
pub fn format_metric_line(label: &str, metric: FpsHudMetricValue) -> (line: String)
    ensures
        line@ == metric_line(label@, metric),
{
    let value = match metric {
        FpsHudMetricValue::Unavailable => "--".to_owned(),
        FpsHudMetricValue::Fps(fps) => u32_to_string(fps),
    };
    let mut line = label.to_owned();
    line.append(" ");
    line.append(value.as_str());
    line
}

/// Whether the HUD is on: a runtime override wins over the configuration.
pub open spec fn hud_enabled(override_enabled: Option<bool>, config_enabled: bool) -> bool {
    match override_enabled {
        Some(enabled) => enabled,
        None => config_enabled,
    }
}

/// Emits the HUD for this frame: only with a running clock, when enabled, and on the primary
/// output; a fixed panel in the top-left corner with the presentation and loop rates.
pub fn emit_fps_hud_system(
    clock_running: bool,
    override_enabled: Option<bool>,
    config_enabled: bool,
    primary_output: Option<u64>,
    present: FpsHudMetricValue,
    loop_rate: FpsHudMetricValue,
) -> (hud: Option<FpsHud>)
    ensures
        hud is Some <==> clock_running && hud_enabled(override_enabled, config_enabled) && primary_output is Some,
        hud matches Some(hud) ==> {
            &&& Some(hud.output_id) == primary_output
            &&& hud.panel == (RenderRect { x: 16, y: 16, width: 164, height: 56 })
            &&& hud.text_x == 28 && hud.present_y == 24 && hud.loop_y == 42
            &&& hud.present_label@ == metric_line("Present"@, present)
            &&& hud.loop_label@ == metric_line("Loop"@, loop_rate)
            &&& hud.z_index == 10_000
        },
{
    if !clock_running {
        return None;
    }
    let enabled = match override_enabled {
        Some(enabled) => enabled,
        None => config_enabled,
    };
    if !enabled {
        return None;
    }
    let output_id = match primary_output {
        Some(id) => id,
        None => return None,
    };
    Some(
        FpsHud {
            output_id,
            panel: RenderRect { x: 16, y: 16, width: 164, height: 56 },
            text_x: 28,
            present_y: 24,
            loop_y: 42,
            present_label: format_metric_line("Present", present),
            loop_label: format_metric_line("Loop", loop_rate),
            z_index: 10_000,
        },
    )
}

} // verus!
