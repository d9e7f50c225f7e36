use nekoland_shell::fps_hud::{emit_fps_hud_system, format_metric_line, FpsHudMetricValue};
use nekoland_shell::model::RenderRect;

#[test]
fn fps_hud_emits_two_line_metric_on_primary_output() {
    let hud = emit_fps_hud_system(true, None, true, Some(7), FpsHudMetricValue::Fps(60), FpsHudMetricValue::Fps(60))
        .expect("HUD should target the primary output");
    assert_eq!(hud.output_id, 7);
    let mut texts = vec![hud.present_label.clone(), hud.loop_label.clone()];
    texts.sort();
    assert_eq!(texts, vec!["Loop 60".to_owned(), "Present 60".to_owned()]);
    assert_eq!(hud.panel, RenderRect { x: 16, y: 16, width: 164, height: 56 });
}

#[test]
fn fps_hud_runtime_override_can_enable_disabled_config() {
    let off = emit_fps_hud_system(true, None, false, Some(9), FpsHudMetricValue::Unavailable, FpsHudMetricValue::Unavailable);
    assert!(off.is_none());
    let on = emit_fps_hud_system(true, Some(true), false, Some(9), FpsHudMetricValue::Unavailable, FpsHudMetricValue::Unavailable);
    assert_eq!(on.map(|hud| hud.output_id), Some(9));
    let forced_off = emit_fps_hud_system(true, Some(false), true, Some(9), FpsHudMetricValue::Unavailable, FpsHudMetricValue::Unavailable);
    assert!(forced_off.is_none());
}

#[test]
fn fps_hud_only_targets_the_wayland_primary_output() {
    let hud = emit_fps_hud_system(true, None, true, Some(2), FpsHudMetricValue::Fps(60), FpsHudMetricValue::Fps(59));
    assert_eq!(hud.map(|hud| hud.output_id), Some(2));
    assert!(emit_fps_hud_system(true, None, true, None, FpsHudMetricValue::Fps(60), FpsHudMetricValue::Fps(60)).is_none());
    assert!(emit_fps_hud_system(false, None, true, Some(2), FpsHudMetricValue::Fps(60), FpsHudMetricValue::Fps(60)).is_none());
}

#[test]
fn metric_lines_show_unknown_rates_as_dashes() {
    assert_eq!(format_metric_line("Present", FpsHudMetricValue::Unavailable), "Present --");
    assert_eq!(format_metric_line("Loop", FpsHudMetricValue::Fps(144)), "Loop 144");
}
