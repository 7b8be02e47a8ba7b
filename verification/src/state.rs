//! The dashboard's state machine: a lifecycle flag, a monotonic tick
//! counter, and the sample set behind the current frame.
//!
//! The surrounding event loop owns the timing and the input source; every
//! decision it takes — resample on timeout, stop on a quit key, ignore
//! everything else — lives here.

use crate::metrics::{is_mock_sample, sample_fake, GpuMetrics};
use vstd::prelude::*;

verus! {

/// A key press as the dashboard sees it: the quit character, the escape
/// key, or anything else.
#[derive(Clone, Copy, Debug, PartialEq, Eq, Structural)]
pub enum Key {
    Char(char),
    Esc,
    Other,
}

/// Whether a key press means quit.
pub open spec fn is_quit_key(k: Key) -> bool {
    k == Key::Char('q') || k == Key::Esc
}

/// What one iteration of the event loop observed: a key press, some other
/// input event, or the poll timeout elapsing.
#[derive(Clone, Copy, Debug)]
pub enum LoopEvent {
    KeyPress(Key),
    OtherInput,
    Tick,
}

/// The whole dashboard state, owned by one single-threaded loop.
pub struct App {
    /// Lifecycle flag; the loop exits as soon as it turns false, and no
    /// transition turns it back on.
    pub running: bool,
    /// Monotonic counter, moved once per sampled tick, never per input-only
    /// iteration.
    pub tick: u64,
    /// The sample set shown by the current frame, replaced wholesale each
    /// tick and never mutated in place.
    pub metrics: Vec<GpuMetrics>,
}

impl App {
    /// A fresh dashboard: running, at tick zero, with no samples yet; the
    /// loop forces one tick before the first frame so the screen is never
    /// blank.
    pub fn new() -> (a: App)
        ensures
            a.running,
            a.tick == 0,
            a.metrics@ == Seq::<GpuMetrics>::empty(),
    {
        App { running: true, tick: 0, metrics: Vec::new() }
    }

    /// A tick: the sample set is replaced wholesale and the counter moves by
    /// exactly one; the lifecycle flag is untouched.
    pub fn on_tick(&mut self, samples: Vec<GpuMetrics>)
        requires
            old(self).running,
            old(self).tick < u64::MAX,
        ensures
            final(self).running == old(self).running,
            final(self).tick == old(self).tick + 1,
            final(self).metrics@ == samples@,
    {
        self.metrics = samples;
        self.tick = self.tick + 1;
    }

    /// A key press: a quit key stops the dashboard; every other key changes
    /// nothing.
    pub fn on_key(&mut self, code: Key)
        requires
            old(self).running,
        ensures
            final(self).tick == old(self).tick,
            final(self).metrics == old(self).metrics,
            final(self).running == !is_quit_key(code),
    {
        match code {
            Key::Char(c) => {
                if c == 'q' {
                    self.running = false;
                }
            },
            Key::Esc => self.running = false,
            Key::Other => {},
        }
    }
}

/// One decision of the event loop: the poll timeout becomes a tick that
/// resamples the synthetic backend, a key press goes to the key handler,
/// and any other input event is ignored.
pub fn step(app: &mut App, ev: LoopEvent, now_ms: u64)
    requires
        old(app).running,
        old(app).tick < u64::MAX,
    ensures
        (match ev {
            LoopEvent::Tick => {
                &&& final(app).running == old(app).running
                &&& final(app).tick == old(app).tick + 1
                &&& final(app).metrics@.len() == 1
                &&& is_mock_sample(final(app).metrics@[0], old(app).tick, now_ms)
            },
            LoopEvent::KeyPress(k) => {
                &&& final(app).tick == old(app).tick
                &&& final(app).metrics == old(app).metrics
                &&& final(app).running == !is_quit_key(k)
            },
            LoopEvent::OtherInput => *final(app) == *old(app),
        }),
{
    match ev {
        LoopEvent::Tick => {
            let samples = sample_fake(app.tick, now_ms);
            app.on_tick(samples);
        },
        LoopEvent::KeyPress(k) => app.on_key(k),
        LoopEvent::OtherInput => {},
    }
}

} // verus!
