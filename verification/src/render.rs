//! The render function: a pure map from dashboard state to a frame model.
//!
//! The model is plain data — colored text lines, two gauges with a fill
//! ratio in basis points, header and footer strings — independent of any
//! widget library. Rendering is total: however many readings are absent,
//! and even with no devices at all, a frame comes back.

use crate::fmt::{
    dec_str, fmt_opt, fmt_opt_rounded, fmt_opt_tenths, opt_round_str, opt_tenths_str, opt_u32_str,
    round_tenths, u64_string,
};
use crate::metrics::GpuMetrics;
use crate::state::App;
use crate::tier::{
    gauge_tier, gauge_tier_spec, junction_tier, junction_tier_spec, mem_temp_tier,
    mem_temp_tier_spec, pct_ratio, pct_ratio_spec, power_tier, power_tier_spec, temp_tier,
    temp_tier_spec, tier_color, tier_color_spec, vram_ratio, vram_ratio_spec, ColorName, Tier,
};
use vstd::prelude::*;
use vstd::string::*;

verus! {

/// Rows reserved for the header block.
pub const HEADER_ROWS: u16 = 3;

/// Rows reserved for the footer block.
pub const FOOTER_ROWS: u16 = 3;

/// Rows reserved for each of the two gauges.
pub const GAUGE_ROWS: u16 = 3;

/// A run of text with an optional color; an uncolored run renders in the
/// terminal's default style.
#[derive(Clone, Debug)]
pub struct TextSpan {
    pub text: String,
    pub color: Option<ColorName>,
}

/// The mathematical value of a span: its characters and its color.
pub type SpanV = (Seq<char>, Option<ColorName>);

impl View for TextSpan {
    type V = SpanV;

    open spec fn view(&self) -> SpanV {
        (self.text@, self.color)
    }
}

/// One line of the text region, as a row of spans; a line with no spans
/// renders blank.
#[derive(Clone, Debug)]
pub struct TextLine {
    pub spans: Vec<TextSpan>,
}

impl View for TextLine {
    type V = Seq<SpanV>;

    open spec fn view(&self) -> Seq<SpanV> {
        self.spans@.map_values(|s: TextSpan| s@)
    }
}

/// The values of a row of lines.
pub open spec fn line_views(ls: Seq<TextLine>) -> Seq<Seq<SpanV>> {
    ls.map_values(|l: TextLine| l@)
}

/// A gauge: a fill ratio in basis points, the tier that colors it, and its
/// label text.
#[derive(Clone, Debug)]
pub struct GaugeModel {
    pub ratio_bp: u32,
    pub tier: Tier,
    pub label: String,
}

/// A whole frame: header text, the device text region, the two gauges, and
/// footer text.
#[derive(Clone, Debug)]
pub struct FrameModel {
    pub header: String,
    pub lines: Vec<TextLine>,
    pub util_gauge: GaugeModel,
    pub vram_gauge: GaugeModel,
    pub footer: String,
}

/// An uncolored span.
pub open spec fn raw_span(t: Seq<char>) -> SpanV {
    (t, Option::None)
}

/// A span colored by a tier's color.
pub open spec fn styled_span(t: Seq<char>, c: ColorName) -> SpanV {
    (t, Option::Some(c))
}

/// The device heading: index and label.
pub open spec fn name_line(i: int, g: GpuMetrics) -> Seq<SpanV> {
    seq![raw_span("GPU "@ + dec_str(i) + ": "@ + g.name@)]
}

/// The edge-temperature line, value colored by its tier.
pub open spec fn temp_line(g: GpuMetrics) -> Seq<SpanV> {
    seq![
        raw_span("Temp: "@),
        styled_span(
            opt_tenths_str(g.temperature_dc) + " °C"@,
            tier_color_spec(temp_tier_spec(g.temperature_dc)),
        ),
    ]
}

/// The junction-temperature line, value colored by its tier.
pub open spec fn junction_line(g: GpuMetrics) -> Seq<SpanV> {
    seq![
        raw_span("Junction: "@),
        styled_span(
            opt_tenths_str(g.junction_temp_dc) + " °C"@,
            tier_color_spec(junction_tier_spec(g.junction_temp_dc)),
        ),
    ]
}

/// The memory-temperature line, value colored by its tier.
pub open spec fn mem_temp_line(g: GpuMetrics) -> Seq<SpanV> {
    seq![
        raw_span("Mem Temp: "@),
        styled_span(
            opt_tenths_str(g.mem_temp_dc) + " °C"@,
            tier_color_spec(mem_temp_tier_spec(g.mem_temp_dc)),
        ),
    ]
}

/// The power line, value rounded to whole watts and colored by its tier.
pub open spec fn power_line(g: GpuMetrics) -> Seq<SpanV> {
    seq![
        raw_span("Power: "@),
        styled_span(
            opt_round_str(g.power_dw) + " W"@,
            tier_color_spec(power_tier_spec(g.power_dw)),
        ),
    ]
}

/// The clocks line, uncolored, placeholder-aware on each half.
pub open spec fn clocks_line(g: GpuMetrics) -> Seq<SpanV> {
    seq![
        raw_span(
            "Clocks: core "@ + opt_u32_str(g.core_clock_mhz) + " MHz | mem "@ + opt_u32_str(
                g.mem_clock_mhz,
            ) + " MHz"@,
        ),
    ]
}

/// The fan line, uncolored, placeholder-aware.
pub open spec fn fan_line(g: GpuMetrics) -> Seq<SpanV> {
    seq![raw_span("Fan: "@ + opt_u32_str(g.fan_rpm) + " RPM"@)]
}

/// A blank separator line.
pub open spec fn blank_line() -> Seq<SpanV> {
    Seq::empty()
}

/// The block of lines for one device.
pub open spec fn device_block(i: int, g: GpuMetrics) -> Seq<Seq<SpanV>> {
    seq![
        name_line(i, g),
        temp_line(g),
        junction_line(g),
        mem_temp_line(g),
        power_line(g),
        clocks_line(g),
        fan_line(g),
    ]
}

/// The whole text region: one block per device in order, a blank line
/// between consecutive devices, nothing at all when there is no device.
pub open spec fn body_lines(ms: Seq<GpuMetrics>) -> Seq<Seq<SpanV>>
    decreases ms.len(),
{
    if ms.len() == 0 {
        Seq::empty()
    } else {
        body_lines(ms.drop_last()) + (if ms.len() > 1 {
            seq![blank_line()]
        } else {
            Seq::<Seq<SpanV>>::empty()
        }) + device_block(ms.len() - 1, ms.last())
    }
}

/// The utilization gauge fill: the first device's percentage, zero when
/// there is no device or no reading.
pub open spec fn util_bp(ms: Seq<GpuMetrics>) -> int {
    if ms.len() == 0 {
        0
    } else {
        pct_ratio_spec(ms[0].utilization_dpct)
    }
}

/// The utilization gauge label: the unclamped percentage rounded to whole
/// percent, or the placeholder wording when absent.
pub open spec fn util_label(ms: Seq<GpuMetrics>) -> Seq<char> {
    if ms.len() == 0 {
        "GPU Util --"@
    } else {
        match ms[0].utilization_dpct {
            Option::Some(p) => "GPU Util "@ + dec_str(round_tenths(p as int)) + "%"@,
            Option::None => "GPU Util --"@,
        }
    }
}

/// The VRAM gauge fill: the first device's used/total ratio, zero when
/// there is no device or the ratio has no value.
pub open spec fn vram_bp(ms: Seq<GpuMetrics>) -> int {
    if ms.len() == 0 {
        0
    } else {
        vram_ratio_spec(ms[0].vram_used_mb, ms[0].vram_total_mb)
    }
}

/// The VRAM gauge label, with a fallback wording for each half absent.
pub open spec fn vram_label(ms: Seq<GpuMetrics>) -> Seq<char> {
    if ms.len() == 0 {
        "VRAM --"@
    } else {
        match (ms[0].vram_used_mb, ms[0].vram_total_mb) {
            (Option::Some(u), Option::Some(t)) => "VRAM "@ + dec_str(u as int) + " / "@ + dec_str(
                t as int,
            ) + " MB"@,
            (Option::Some(u), Option::None) => "VRAM "@ + dec_str(u as int) + " / ? MB"@,
            _ => "VRAM --"@,
        }
    }
}

/// The static header text.
pub open spec fn header_text() -> Seq<char> {
    "gtop - mock metrics mode - q to quit"@
}

/// The footer text: the current tick and the note that data is synthetic.
pub open spec fn footer_text(tick: u64) -> Seq<char> {
    "Tick: "@ + dec_str(tick as int) + "   (data is mocked)"@
}

/// What a frame for `app` looks like, field by field.
pub open spec fn frame_matches(f: FrameModel, app: App) -> bool {
    &&& f.header@ == header_text()
    &&& line_views(f.lines@) == body_lines(app.metrics@)
    &&& f.util_gauge.ratio_bp as int == util_bp(app.metrics@)
    &&& f.util_gauge.tier == gauge_tier_spec(f.util_gauge.ratio_bp)
    &&& f.util_gauge.label@ == util_label(app.metrics@)
    &&& f.vram_gauge.ratio_bp as int == vram_bp(app.metrics@)
    &&& f.vram_gauge.tier == gauge_tier_spec(f.vram_gauge.ratio_bp)
    &&& f.vram_gauge.label@ == vram_label(app.metrics@)
    &&& f.footer@ == footer_text(app.tick)
}

/// A line of one uncolored span.
fn one_span_line(text: String) -> (l: TextLine)
    ensures
        l@ == seq![raw_span(text@)],
{
    let mut spans: Vec<TextSpan> = Vec::new();
    spans.push(TextSpan { text, color: Option::None });
    let l = TextLine { spans };
    proof {
        assert(l@ =~~= seq![raw_span(l.spans@[0].text@)]);
    }
    l
}

/// A line of an uncolored prefix and a colored value.
fn two_span_line(prefix: &str, value: String, c: ColorName) -> (l: TextLine)
    ensures
        l@ == seq![raw_span(prefix@), styled_span(value@, c)],
{
    let mut spans: Vec<TextSpan> = Vec::new();
    spans.push(TextSpan { text: String::from_str(prefix), color: Option::None });
    spans.push(TextSpan { text: value, color: Option::Some(c) });
    let l = TextLine { spans };
    proof {
        assert(l@ =~~= seq![raw_span(prefix@), styled_span(l.spans@[1].text@, c)]);
    }
    l
}

/// The block of lines for one device.
fn device_block_lines(i: usize, g: &GpuMetrics) -> (v: Vec<TextLine>)
    ensures
        line_views(v@) == device_block(i as int, *g),
{
    let mut v: Vec<TextLine> = Vec::new();

    let mut nt = String::from_str("GPU ");
    let istr = u64_string(i as u64);
    nt.append(istr.as_str());
    nt.append(": ");
    nt.append(g.name.as_str());
    v.push(one_span_line(nt));

    let mut tt = fmt_opt_tenths(&g.temperature_dc);
    tt.append(" °C");
    v.push(two_span_line("Temp: ", tt, tier_color(temp_tier(&g.temperature_dc))));

    let mut jt = fmt_opt_tenths(&g.junction_temp_dc);
    jt.append(" °C");
    v.push(two_span_line("Junction: ", jt, tier_color(junction_tier(&g.junction_temp_dc))));

    let mut mt = fmt_opt_tenths(&g.mem_temp_dc);
    mt.append(" °C");
    v.push(two_span_line("Mem Temp: ", mt, tier_color(mem_temp_tier(&g.mem_temp_dc))));

    let mut pt = fmt_opt_rounded(&g.power_dw);
    pt.append(" W");
    v.push(two_span_line("Power: ", pt, tier_color(power_tier(&g.power_dw))));

    let mut ct = String::from_str("Clocks: core ");
    let core_str = fmt_opt(&g.core_clock_mhz);
    ct.append(core_str.as_str());
    ct.append(" MHz | mem ");
    let mem_str = fmt_opt(&g.mem_clock_mhz);
    ct.append(mem_str.as_str());
    ct.append(" MHz");
    v.push(one_span_line(ct));

    let mut ft = String::from_str("Fan: ");
    let fan_str = fmt_opt(&g.fan_rpm);
    ft.append(fan_str.as_str());
    ft.append(" RPM");
    v.push(one_span_line(ft));

    proof {
        assert(line_views(v@) =~~= device_block(i as int, *g));
    }
    v
}

/// The utilization gauge for the given sample set.
fn util_gauge_model(metrics: &Vec<GpuMetrics>) -> (g: GaugeModel)
    ensures
        g.ratio_bp as int == util_bp(metrics@),
        g.tier == gauge_tier_spec(g.ratio_bp),
        g.label@ == util_label(metrics@),
{
    if metrics.len() > 0 {
        let g0 = &metrics[0];
        let bp = pct_ratio(g0.utilization_dpct);
        let label = match g0.utilization_dpct {
            Option::Some(p) => {
                let mut s = String::from_str("GPU Util ");
                let m: u64 = ((p as u64) + 5) / 10;
                let mstr = u64_string(m);
                s.append(mstr.as_str());
                s.append("%");
                s
            },
            Option::None => String::from_str("GPU Util --"),
        };
        GaugeModel { ratio_bp: bp, tier: gauge_tier(bp), label }
    } else {
        GaugeModel { ratio_bp: 0, tier: gauge_tier(0), label: String::from_str("GPU Util --") }
    }
}

/// The VRAM gauge for the given sample set.
fn vram_gauge_model(metrics: &Vec<GpuMetrics>) -> (g: GaugeModel)
    ensures
        g.ratio_bp as int == vram_bp(metrics@),
        g.tier == gauge_tier_spec(g.ratio_bp),
        g.label@ == vram_label(metrics@),
{
    if metrics.len() > 0 {
        let g0 = &metrics[0];
        let bp = vram_ratio(g0.vram_used_mb, g0.vram_total_mb);
        let label = match (g0.vram_used_mb, g0.vram_total_mb) {
            (Option::Some(u), Option::Some(t)) => {
                let mut s = String::from_str("VRAM ");
                let ustr = u64_string(u as u64);
                s.append(ustr.as_str());
                s.append(" / ");
                let tstr = u64_string(t as u64);
                s.append(tstr.as_str());
                s.append(" MB");
                s
            },
            (Option::Some(u), Option::None) => {
                let mut s = String::from_str("VRAM ");
                let ustr = u64_string(u as u64);
                s.append(ustr.as_str());
                s.append(" / ? MB");
                s
            },
            _ => String::from_str("VRAM --"),
        };
        GaugeModel { ratio_bp: bp, tier: gauge_tier(bp), label }
    } else {
        GaugeModel { ratio_bp: 0, tier: gauge_tier(0), label: String::from_str("VRAM --") }
    }
}

/// The frame for the given state. Total: absent readings become
/// placeholders, and an empty sample set renders an empty text region with
/// zeroed gauges.
pub fn ui(app: &App) -> (f: FrameModel)
    ensures
        frame_matches(f, *app),
{
    let header = String::from_str("gtop - mock metrics mode - q to quit");

    let mut lines: Vec<TextLine> = Vec::new();
    let n = app.metrics.len();
    let mut i: usize = 0;
    while i < n
        invariant
            n == app.metrics@.len(),
            i <= n,
            line_views(lines@) == body_lines(app.metrics@.take(i as int)),
        decreases n - i,
    {
        let ghost prev = lines@;
        if i > 0 {
            lines.push(TextLine { spans: Vec::new() });
            proof {
                assert(line_views(lines@) =~~= line_views(prev) + seq![blank_line()]);
            }
        }
        let ghost mid = lines@;
        let mut block = device_block_lines(i, &app.metrics[i]);
        let ghost block_view = block@;
        lines.append(&mut block);
        proof {
            assert(line_views(lines@) =~~= line_views(mid) + line_views(block_view));
            assert(app.metrics@.take(i as int + 1).drop_last() =~= app.metrics@.take(i as int));
            assert(app.metrics@.take(i as int + 1).last() == app.metrics@[i as int]);
            assert(line_views(lines@) =~~= body_lines(app.metrics@.take(i as int + 1)));
        }
        i = i + 1;
    }
    proof {
        assert(app.metrics@.take(n as int) =~= app.metrics@);
    }

    let util_gauge = util_gauge_model(&app.metrics);
    let vram_gauge = vram_gauge_model(&app.metrics);

    let mut footer = String::from_str("Tick: ");
    let tstr = u64_string(app.tick);
    footer.append(tstr.as_str());
    footer.append("   (data is mocked)");

    FrameModel { header, lines, util_gauge, vram_gauge, footer }
}

} // verus!
