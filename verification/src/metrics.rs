//! The metric sample: one device's readings at a point in time, and the
//! synthetic sampler that produces them during development.
//!
//! Every reading is optional: absence means the sensor was unavailable, a
//! first-class value distinct from zero. Fractional readings (degrees,
//! percent, watts) are stored in integer tenths so classification and
//! display stay exact.

use vstd::prelude::*;
use vstd::string::*;

verus! {

/// One monitored device's readings at one capture instant.
#[derive(Clone, Debug)]
pub struct GpuMetrics {
    /// Device label, expected non-empty.
    pub name: String,
    /// Edge temperature, tenths of a degree Celsius.
    pub temperature_dc: Option<i32>,
    /// Junction (hotspot) temperature, tenths of a degree Celsius.
    pub junction_temp_dc: Option<i32>,
    /// Memory temperature, tenths of a degree Celsius.
    pub mem_temp_dc: Option<i32>,
    /// Utilization, tenths of a percent; clamped to 100% only at display
    /// time, not at capture time.
    pub utilization_dpct: Option<u32>,
    /// VRAM in use, megabytes; may exceed the total on sensor error without
    /// ever breaking the display.
    pub vram_used_mb: Option<u32>,
    /// VRAM capacity, megabytes.
    pub vram_total_mb: Option<u32>,
    /// Power draw, tenths of a watt.
    pub power_dw: Option<u32>,
    /// Fan speed, revolutions per minute.
    pub fan_rpm: Option<u32>,
    /// Core clock, megahertz.
    pub core_clock_mhz: Option<u32>,
    /// Memory clock, megahertz.
    pub mem_clock_mhz: Option<u32>,
    /// Capture instant in milliseconds on the caller's clock; kept for
    /// freshness only and never displayed.
    pub timestamp_ms: u64,
}

/// VRAM capacity reported by the synthetic sampler.
pub const MOCK_VRAM_TOTAL_MB: u32 = 16384;

/// Synthetic edge temperature: cycles through roughly 45.0 to 53.7 degrees.
pub open spec fn mock_temp_dc(counter: u64) -> int {
    450 + (counter as int % 30) * 3
}

/// Synthetic junction temperature: runs hotter than the edge.
pub open spec fn mock_junction_dc(counter: u64) -> int {
    mock_temp_dc(counter) + 120 + (counter as int % 10) * 2
}

/// Synthetic memory temperature: a bit above the edge.
pub open spec fn mock_mem_temp_dc(counter: u64) -> int {
    mock_temp_dc(counter) + 60
}

/// Synthetic utilization: sweeps 0 to 99 percent.
pub open spec fn mock_util_dpct(counter: u64) -> int {
    (counter as int % 100) * 10
}

/// Synthetic VRAM in use: 1200 to 1999 megabytes.
pub open spec fn mock_vram_used_mb(counter: u64) -> int {
    1200 + counter as int % 800
}

/// Synthetic power draw: 90 to 109 watts.
pub open spec fn mock_power_dw(counter: u64) -> int {
    900 + (counter as int % 20) * 10
}

/// Synthetic fan speed: 1200 to 1599 revolutions per minute.
pub open spec fn mock_fan_rpm(counter: u64) -> int {
    1200 + counter as int % 400
}

/// Synthetic core clock: 800 to 2399 megahertz.
pub open spec fn mock_core_clock_mhz(counter: u64) -> int {
    800 + counter as int % 1600
}

/// Synthetic memory clock: 1000 to 1799 megahertz.
pub open spec fn mock_mem_clock_mhz(counter: u64) -> int {
    1000 + counter as int % 800
}

/// What the synthetic sampler reports for `counter` at capture instant
/// `now_ms`: every field present and derived from the counter alone.
pub open spec fn is_mock_sample(g: GpuMetrics, counter: u64, now_ms: u64) -> bool {
    &&& g.name@ == "AMD Radeon (mock)"@
    &&& g.temperature_dc == Option::Some(mock_temp_dc(counter) as i32)
    &&& g.junction_temp_dc == Option::Some(mock_junction_dc(counter) as i32)
    &&& g.mem_temp_dc == Option::Some(mock_mem_temp_dc(counter) as i32)
    &&& g.utilization_dpct == Option::Some(mock_util_dpct(counter) as u32)
    &&& g.vram_used_mb == Option::Some(mock_vram_used_mb(counter) as u32)
    &&& g.vram_total_mb == Option::Some(MOCK_VRAM_TOTAL_MB)
    &&& g.power_dw == Option::Some(mock_power_dw(counter) as u32)
    &&& g.fan_rpm == Option::Some(mock_fan_rpm(counter) as u32)
    &&& g.core_clock_mhz == Option::Some(mock_core_clock_mhz(counter) as u32)
    &&& g.mem_clock_mhz == Option::Some(mock_mem_clock_mhz(counter) as u32)
    &&& g.timestamp_ms == now_ms
}

/// Synthetic sampler for development: every reading is a simple periodic
/// function of the counter, so successive frames show plausible, bounded
/// motion. A real hardware backend honors the same shape of result, turning
/// each sensor-read failure into an absent field rather than an error.
pub fn sample_fake(counter: u64, now_ms: u64) -> (v: Vec<GpuMetrics>)
    ensures
        v@.len() == 1,
        is_mock_sample(v@[0], counter, now_ms),
{
    let temp: i32 = 450 + ((counter % 30) as i32) * 3;
    let junction: i32 = temp + 120 + ((counter % 10) as i32) * 2;
    let mem_temp: i32 = temp + 60;
    let util: u32 = ((counter % 100) as u32) * 10;
    let used: u32 = 1200 + ((counter % 800) as u32);
    let power: u32 = 900 + ((counter % 20) as u32) * 10;
    let fan: u32 = 1200 + ((counter % 400) as u32);
    let core_clk: u32 = 800 + ((counter % 1600) as u32);
    let mem_clk: u32 = 1000 + ((counter % 800) as u32);
    let g = GpuMetrics {
        name: String::from_str("AMD Radeon (mock)"),
        temperature_dc: Option::Some(temp),
        junction_temp_dc: Option::Some(junction),
        mem_temp_dc: Option::Some(mem_temp),
        utilization_dpct: Option::Some(util),
        vram_used_mb: Option::Some(used),
        vram_total_mb: Option::Some(MOCK_VRAM_TOTAL_MB),
        power_dw: Option::Some(power),
        fan_rpm: Option::Some(fan),
        core_clock_mhz: Option::Some(core_clk),
        mem_clock_mhz: Option::Some(mem_clk),
        timestamp_ms: now_ms,
    };
    let mut v: Vec<GpuMetrics> = Vec::new();
    v.push(g);
    v
}

} // verus!
