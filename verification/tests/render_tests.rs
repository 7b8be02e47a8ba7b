use gtop::metrics::GpuMetrics;
use gtop::render::{ui, FOOTER_ROWS, GAUGE_ROWS, HEADER_ROWS};
use gtop::state::App;
use gtop::tier::{ColorName, Tier};

fn bare(name: &str) -> GpuMetrics {
    GpuMetrics {
        name: name.to_string(),
        temperature_dc: None,
        junction_temp_dc: None,
        mem_temp_dc: None,
        utilization_dpct: None,
        vram_used_mb: None,
        vram_total_mb: None,
        power_dw: None,
        fan_rpm: None,
        core_clock_mhz: None,
        mem_clock_mhz: None,
        timestamp_ms: 0,
    }
}

fn line_text(frame: &gtop::render::FrameModel, i: usize) -> String {
    frame.lines[i].spans.iter().map(|s| s.text.clone()).collect::<Vec<_>>().join("")
}

#[test]
fn hot_device_renders_critical_temp_and_vram() {
    // One forced tick from a sampler reporting a hot device near VRAM
    // exhaustion: 92.0 degrees, 15000 of 16384 MB.
    let mut app = App::new();
    let mut gpu = bare("Radeon Test");
    gpu.temperature_dc = Some(920);
    gpu.vram_used_mb = Some(15000);
    gpu.vram_total_mb = Some(16384);
    app.on_tick(vec![gpu]);

    let frame = ui(&app);

    // Temperature line: value span in critical styling.
    assert_eq!(frame.lines[1].spans[0].text, "Temp: ");
    assert_eq!(frame.lines[1].spans[0].color, None);
    assert_eq!(frame.lines[1].spans[1].text, "92.0 °C");
    assert_eq!(frame.lines[1].spans[1].color, Some(ColorName::Red));

    // VRAM gauge: 15000/16384 is about 0.9155, critical.
    assert_eq!(frame.vram_gauge.ratio_bp, 9155);
    assert_eq!(frame.vram_gauge.tier, Tier::Critical);
    assert_eq!(frame.vram_gauge.label, "VRAM 15000 / 16384 MB");

    // The displayed sample was taken for counter 0; the footer shows the
    // already-advanced counter.
    assert_eq!(frame.footer, "Tick: 1   (data is mocked)");
}

#[test]
fn empty_metrics_render_without_failing() {
    let app = App::new();
    let frame = ui(&app);
    assert!(frame.lines.is_empty());
    assert_eq!(frame.util_gauge.ratio_bp, 0);
    assert_eq!(frame.util_gauge.tier, Tier::Normal);
    assert_eq!(frame.util_gauge.label, "GPU Util --");
    assert_eq!(frame.vram_gauge.ratio_bp, 0);
    assert_eq!(frame.vram_gauge.tier, Tier::Normal);
    assert_eq!(frame.vram_gauge.label, "VRAM --");
    assert_eq!(frame.header, "gtop - mock metrics mode - q to quit");
    assert_eq!(frame.footer, "Tick: 0   (data is mocked)");
}

#[test]
fn absent_readings_render_as_placeholders() {
    let mut app = App::new();
    app.on_tick(vec![bare("Mystery")]);
    let frame = ui(&app);

    assert_eq!(frame.lines.len(), 7);
    assert_eq!(line_text(&frame, 0), "GPU 0: Mystery");
    assert_eq!(line_text(&frame, 1), "Temp: -- °C");
    assert_eq!(frame.lines[1].spans[1].color, Some(ColorName::DarkGray));
    assert_eq!(line_text(&frame, 2), "Junction: -- °C");
    assert_eq!(line_text(&frame, 3), "Mem Temp: -- °C");
    assert_eq!(line_text(&frame, 4), "Power: -- W");
    assert_eq!(frame.lines[4].spans[1].color, Some(ColorName::DarkGray));
    assert_eq!(line_text(&frame, 5), "Clocks: core -- MHz | mem -- MHz");
    assert_eq!(line_text(&frame, 6), "Fan: -- RPM");

    assert_eq!(frame.util_gauge.ratio_bp, 0);
    assert_eq!(frame.util_gauge.label, "GPU Util --");
    assert_eq!(frame.vram_gauge.ratio_bp, 0);
    assert_eq!(frame.vram_gauge.label, "VRAM --");
}

#[test]
fn full_device_lines_are_styled_and_exact() {
    let mut app = App::new();
    let mut gpu = bare("Radeon");
    gpu.temperature_dc = Some(853);
    gpu.junction_temp_dc = Some(1051);
    gpu.mem_temp_dc = Some(700);
    gpu.utilization_dpct = Some(764);
    gpu.vram_used_mb = Some(1200);
    gpu.vram_total_mb = Some(16384);
    gpu.power_dw = Some(2204);
    gpu.fan_rpm = Some(1350);
    gpu.core_clock_mhz = Some(2100);
    gpu.mem_clock_mhz = Some(1000);
    app.on_tick(vec![gpu]);

    let frame = ui(&app);
    assert_eq!(line_text(&frame, 0), "GPU 0: Radeon");
    assert_eq!(line_text(&frame, 1), "Temp: 85.3 °C");
    assert_eq!(frame.lines[1].spans[1].color, Some(ColorName::Yellow));
    assert_eq!(line_text(&frame, 2), "Junction: 105.1 °C");
    assert_eq!(frame.lines[2].spans[1].color, Some(ColorName::Red));
    assert_eq!(line_text(&frame, 3), "Mem Temp: 70.0 °C");
    assert_eq!(frame.lines[3].spans[1].color, Some(ColorName::Green));
    assert_eq!(line_text(&frame, 4), "Power: 220 W");
    assert_eq!(frame.lines[4].spans[1].color, Some(ColorName::Yellow));
    assert_eq!(line_text(&frame, 5), "Clocks: core 2100 MHz | mem 1000 MHz");
    assert_eq!(line_text(&frame, 6), "Fan: 1350 RPM");

    // Utilization gauge: 76.4% rounds to 76 in the label, warns as a ratio.
    assert_eq!(frame.util_gauge.ratio_bp, 7640);
    assert_eq!(frame.util_gauge.tier, Tier::Warning);
    assert_eq!(frame.util_gauge.label, "GPU Util 76%");
}

#[test]
fn devices_are_separated_by_one_blank_line_and_gauges_follow_the_first() {
    let mut app = App::new();
    let mut first = bare("Alpha");
    first.utilization_dpct = Some(100);
    first.vram_used_mb = Some(4096);
    first.vram_total_mb = Some(16384);
    let mut second = bare("Beta");
    second.utilization_dpct = Some(990);
    app.on_tick(vec![first, second]);

    let frame = ui(&app);
    assert_eq!(frame.lines.len(), 15);
    assert_eq!(line_text(&frame, 0), "GPU 0: Alpha");
    assert!(frame.lines[7].spans.is_empty());
    assert_eq!(line_text(&frame, 8), "GPU 1: Beta");

    // Only the first device feeds the gauges.
    assert_eq!(frame.util_gauge.ratio_bp, 1000);
    assert_eq!(frame.util_gauge.label, "GPU Util 10%");
    assert_eq!(frame.vram_gauge.ratio_bp, 2500);
    assert_eq!(frame.vram_gauge.label, "VRAM 4096 / 16384 MB");
}

#[test]
fn util_label_uses_the_unclamped_percentage() {
    let mut app = App::new();
    let mut gpu = bare("Busy");
    gpu.utilization_dpct = Some(1500);
    app.on_tick(vec![gpu]);

    let frame = ui(&app);
    // The gauge fill clamps to full; the label keeps the raw reading.
    assert_eq!(frame.util_gauge.ratio_bp, 10000);
    assert_eq!(frame.util_gauge.tier, Tier::Critical);
    assert_eq!(frame.util_gauge.label, "GPU Util 150%");
}

#[test]
fn vram_label_has_a_phrasing_for_a_missing_total() {
    let mut app = App::new();
    let mut gpu = bare("Partial");
    gpu.vram_used_mb = Some(777);
    app.on_tick(vec![gpu]);

    let frame = ui(&app);
    assert_eq!(frame.vram_gauge.ratio_bp, 0);
    assert_eq!(frame.vram_gauge.label, "VRAM 777 / ? MB");
}

#[test]
fn layout_rows_are_fixed() {
    assert_eq!(HEADER_ROWS, 3);
    assert_eq!(FOOTER_ROWS, 3);
    assert_eq!(GAUGE_ROWS, 3);
}
