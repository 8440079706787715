//! Control-surface logic for an amplifier plugin UI.
//!
//! The UI shows a gain dial, an enable toggle button and two level meters.
//! The host owns four control ports; once per idle tick the controller copies
//! pending host values into the widgets and widget changes back to the ports.
//!
//! All control values are kept as fixed-point integers in thousandths of a
//! unit (a gain of -90 dB is `-90_000`), so that the clamping, stepping and
//! zone arithmetic can be verified exactly.  The windowing, drawing and
//! host-ABI glue around this crate converts to and from the host's
//! single-precision floats at the boundary.

use vstd::prelude::*;

pub mod button;
pub mod dial;
pub mod event;
pub mod meter;

pub use button::Button;
pub use dial::Dial;
pub use event::Event;
pub use meter::{BarSegment, Factory, Meter, Zone};

verus! {

/// Thousandths per unit: the scale between a host float and a stored value.
pub const VALUE_SCALE: i64 = 1000;

/// Magnitude bound on every stored control value, loose enough for any
/// plausible dB range while keeping all arithmetic far from `i64` overflow.
pub const LEVEL_LIMIT: i64 = 0x4000_0000;

/// Gain dial range: -90 dB to +24 dB in steps of 1 dB.
pub const GAIN_MIN: i64 = -90_000;
pub const GAIN_MAX: i64 = 24_000;
pub const GAIN_STEP: i64 = 1_000;

/// Level meter display range: -60 dB to +20 dB.
pub const METER_MIN: i64 = -60_000;
pub const METER_MAX: i64 = 20_000;

/// Port value sent for an engaged toggle (the host float 1.0).
pub const TOGGLE_ON: i64 = 1_000;
/// Port value sent for a released toggle (the host float 0.0).
pub const TOGGLE_OFF: i64 = 0;
/// A host value strictly above this (the float 0.5) counts as engaged.
pub const TOGGLE_THRESHOLD: i64 = 500;

/// `v` pulled into the closed interval `[lo, hi]`.
pub open spec fn clamp_spec(v: int, lo: int, hi: int) -> int {
    if v < lo {
        lo
    } else if v > hi {
        hi
    } else {
        v
    }
}

/// One control port as the UI sees it: a slot for a value the host has
/// written and not yet been applied to a widget, and a slot for a value a
/// widget changed and the shell has not yet sent to the host.
pub struct UiPort {
    /// Pending value from the host, applied by `AmpUI::update`.
    pub from_host: Option<i64>,
    /// Pending value for the host, drained by the shell after `AmpUI::idle`.
    pub to_host: Option<i64>,
}

impl UiPort {
    /// An idle port with nothing pending in either direction.
    pub fn new() -> (p: UiPort)
        ensures
            p.from_host is None,
            p.to_host is None,
    {
        UiPort { from_host: None, to_host: None }
    }

    /// The widget side queues `v` to be sent to the host.
    pub fn set_value(&mut self, v: i64)
        ensures
            final(self).to_host == Some(v),
            final(self).from_host == old(self).from_host,
    {
        self.to_host = Some(v);
    }

    /// The pending host value, if any; it stays pending until overwritten.
    pub fn value(&self) -> (r: Option<i64>)
        ensures
            r == self.from_host,
    {
        self.from_host
    }

    /// The host wrote `v` through its port.
    pub fn receive(&mut self, v: i64)
        ensures
            final(self).from_host == Some(v),
            final(self).to_host == old(self).to_host,
    {
        self.from_host = Some(v);
    }

    /// Hands the shell the value to send to the host, once.
    pub fn take_to_host(&mut self) -> (r: Option<i64>)
        ensures
            r == old(self).to_host,
            final(self).to_host is None,
            final(self).from_host == old(self).from_host,
    {
        let r = self.to_host;
        self.to_host = None;
        r
    }
}

/// The plugin's four control ports, indexed as the host indexes them:
/// 0 gain, 1 enabled, 2 input level, 3 output level.
pub struct MyUIPorts {
    pub gain: UiPort,
    pub enabled: UiPort,
    pub meter_in: UiPort,
    pub meter_out: UiPort,
}

impl MyUIPorts {
    /// Four idle ports.
    pub fn new() -> (p: MyUIPorts)
        ensures
            p.gain.from_host is None && p.gain.to_host is None,
            p.enabled.from_host is None && p.enabled.to_host is None,
            p.meter_in.from_host is None && p.meter_in.to_host is None,
            p.meter_out.from_host is None && p.meter_out.to_host is None,
    {
        MyUIPorts {
            gain: UiPort::new(),
            enabled: UiPort::new(),
            meter_in: UiPort::new(),
            meter_out: UiPort::new(),
        }
    }

    /// Dispatches a host write to the port with the given index; a write to
    /// an index the plugin does not have is refused and changes nothing.
    pub fn port_event(&mut self, port_index: u32, value: i64) -> (known: bool)
        ensures
            known == (port_index < 4),
            final(self).gain == (if port_index == 0 {
                UiPort { from_host: Some(value), to_host: old(self).gain.to_host }
            } else {
                old(self).gain
            }),
            final(self).enabled == (if port_index == 1 {
                UiPort { from_host: Some(value), to_host: old(self).enabled.to_host }
            } else {
                old(self).enabled
            }),
            final(self).meter_in == (if port_index == 2 {
                UiPort { from_host: Some(value), to_host: old(self).meter_in.to_host }
            } else {
                old(self).meter_in
            }),
            final(self).meter_out == (if port_index == 3 {
                UiPort { from_host: Some(value), to_host: old(self).meter_out.to_host }
            } else {
                old(self).meter_out
            }),
    {
        match port_index {
            0 => {
                self.gain.receive(value);
                true
            },
            1 => {
                self.enabled.receive(value);
                true
            },
            2 => {
                self.meter_in.receive(value);
                true
            },
            3 => {
                self.meter_out.receive(value);
                true
            },
            _ => false,
        }
    }
}

/// The widget at the root of the tree: it paints the background and turns a
/// tab key press into a request to move the focus to the next widget.
pub struct RootWidget {
    /// Set by a tab key press, cleared by `focus_next`.
    pub focus_next: bool,
}

impl Default for RootWidget {
    /// A root widget with no pending focus request.
    fn default() -> (r: RootWidget)
        ensures
            !r.focus_next,
    {
        RootWidget { focus_next: false }
    }
}

impl RootWidget {
    /// Decides one input event: a tab key press asks for the focus to move
    /// and is consumed; everything else is passed on.
    pub fn event(&mut self, ev: Event) -> (passed: Option<Event>)
        ensures
            match ev {
                Event::KeyPress(c) => {
                    if c == '\t' {
                        passed is None && final(self).focus_next
                    } else {
                        passed == Some(ev) && *final(self) == *old(self)
                    }
                },
                _ => passed == Some(ev) && *final(self) == *old(self),
            },
    {
        match ev {
            Event::KeyPress(c) => {
                if c == '\t' {
                    self.focus_next = true;
                    None
                } else {
                    Some(ev)
                }
            },
            _ => Some(ev),
        }
    }

    /// Whether a focus move is pending; polling clears the request.
    pub fn focus_next(&mut self) -> (r: bool)
        ensures
            r == old(self).focus_next,
            !final(self).focus_next,
    {
        let f = self.focus_next;
        self.focus_next = false;
        f
    }
}

/// The top-level controller: the four widgets of the surface and the four
/// host ports, with the per-tick copying between them.
pub struct AmpUI {
    pub gain_dial: Dial,
    pub enable_btn: Button,
    pub meter_in: Meter,
    pub meter_out: Meter,
    pub ports: MyUIPorts,
}

impl AmpUI {
    /// A well-formed surface: the widgets hold the plugin's fixed ranges and
    /// the enable button is a toggle button.
    pub open spec fn wf(self) -> bool {
        &&& self.gain_dial.wf()
        &&& self.gain_dial.min == GAIN_MIN
        &&& self.gain_dial.max == GAIN_MAX
        &&& self.gain_dial.step == GAIN_STEP
        &&& self.enable_btn.toggle_state is Some
        &&& self.meter_in.wf()
        &&& self.meter_in.min_value == METER_MIN
        &&& self.meter_in.max_value == METER_MAX
        &&& self.meter_out.wf()
        &&& self.meter_out.min_value == METER_MIN
        &&& self.meter_out.max_value == METER_MAX
    }

    /// The surface as the plugin starts it: the gain dial over its dB range
    /// at the bottom, the enable toggle off, both meters at the bottom of
    /// their scale and no port traffic pending.
    pub fn new() -> (ui: AmpUI)
        ensures
            ui.wf(),
            ui.gain_dial.value == GAIN_MIN,
            !ui.gain_dial.changed,
            !ui.gain_dial.needs_repaint,
            ui.enable_btn.toggle_state == Some(false),
            !ui.enable_btn.clicked,
            ui.enable_btn.label@ == "enable"@,
            !ui.enable_btn.needs_repaint,
            ui.meter_in.value == METER_MIN,
            !ui.meter_in.needs_repaint,
            ui.meter_out.value == METER_MIN,
            !ui.meter_out.needs_repaint,
            ui.ports.gain.from_host is None && ui.ports.gain.to_host is None,
            ui.ports.enabled.from_host is None && ui.ports.enabled.to_host is None,
            ui.ports.meter_in.from_host is None && ui.ports.meter_in.to_host is None,
            ui.ports.meter_out.from_host is None && ui.ports.meter_out.to_host is None,
    {
        let gain_dial = Dial::new(GAIN_MIN, GAIN_MAX, GAIN_STEP);
        let enable_btn = *Button::new_toggle_button("enable", false);
        let factory = meter::new(METER_MIN, METER_MAX);
        let meter_in = factory.make_widget();
        let meter_out = factory.make_widget();
        AmpUI { gain_dial, enable_btn, meter_in, meter_out, ports: MyUIPorts::new() }
    }

    /// The ports, for the shell to drain and fill around each tick.
    pub fn ports(&mut self) -> (r: &mut MyUIPorts)
        ensures
            *r == old(self).ports,
            final(self).ports == *final(r),
            final(self).gain_dial == old(self).gain_dial,
            final(self).enable_btn == old(self).enable_btn,
            final(self).meter_in == old(self).meter_in,
            final(self).meter_out == old(self).meter_out,
    {
        &mut self.ports
    }

    /// One idle tick after the event queue was pumped.
    ///
    /// When the window was asked to close, nothing is touched and the
    /// non-zero status tells the host so.  Otherwise a pending dial change is
    /// queued on the gain port exactly once, and the toggle state is queued
    /// on the enabled port as the host's on/off values.
    pub fn idle(&mut self, close_requested: bool) -> (status: i32)
        requires
            old(self).wf(),
        ensures
            final(self).wf(),
            status == (if close_requested {
                1i32
            } else {
                0i32
            }),
            close_requested ==> *final(self) == *old(self),
            !close_requested ==> {
                &&& final(self).gain_dial.value == old(self).gain_dial.value
                &&& final(self).gain_dial.min == old(self).gain_dial.min
                &&& final(self).gain_dial.max == old(self).gain_dial.max
                &&& final(self).gain_dial.step == old(self).gain_dial.step
                &&& !final(self).gain_dial.changed
                &&& final(self).gain_dial.needs_repaint == old(self).gain_dial.needs_repaint
                &&& final(self).enable_btn == old(self).enable_btn
                &&& final(self).meter_in == old(self).meter_in
                &&& final(self).meter_out == old(self).meter_out
                &&& final(self).ports.gain.to_host == (if old(self).gain_dial.changed {
                    Some(old(self).gain_dial.value)
                } else {
                    old(self).ports.gain.to_host
                })
                &&& final(self).ports.gain.from_host == old(self).ports.gain.from_host
                &&& final(self).ports.enabled.to_host == (
                if old(self).enable_btn.toggle_state == Some(true) {
                    Some(TOGGLE_ON)
                } else {
                    Some(TOGGLE_OFF)
                })
                &&& final(self).ports.enabled.from_host == old(self).ports.enabled.from_host
                &&& final(self).ports.meter_in == old(self).ports.meter_in
                &&& final(self).ports.meter_out == old(self).ports.meter_out
            },
    {
        if close_requested {
            return 1;
        }

        if let Some(v) = self.gain_dial.changed_value() {
            self.ports.gain.set_value(v);
        }

        if let Some(v) = self.enable_btn.toggle_state() {
            self.ports.enabled.set_value(if v {
                TOGGLE_ON
            } else {
                TOGGLE_OFF
            });
        }

        0
    }

    /// Applies every pending host value to its widget: the gain to the dial,
    /// the enabled flag to the toggle button (engaged strictly above the
    /// threshold), the two levels to the meters, each clamped to its widget's
    /// range.  The ports themselves are left alone.
    pub fn update(&mut self)
        requires
            old(self).wf(),
        ensures
            final(self).wf(),
            final(self).ports == old(self).ports,
            final(self).gain_dial.value as int == (match old(self).ports.gain.from_host {
                Some(v) => clamp_spec(v as int, GAIN_MIN as int, GAIN_MAX as int),
                None => old(self).gain_dial.value as int,
            }),
            final(self).gain_dial.changed == old(self).gain_dial.changed,
            final(self).gain_dial.min == old(self).gain_dial.min,
            final(self).gain_dial.max == old(self).gain_dial.max,
            final(self).gain_dial.step == old(self).gain_dial.step,
            final(self).gain_dial.needs_repaint == (old(self).ports.gain.from_host is Some
                || old(self).gain_dial.needs_repaint),
            final(self).enable_btn.toggle_state == (match old(self).ports.enabled.from_host {
                Some(v) => Some(v > TOGGLE_THRESHOLD),
                None => old(self).enable_btn.toggle_state,
            }),
            final(self).enable_btn.clicked == old(self).enable_btn.clicked,
            final(self).enable_btn.label == old(self).enable_btn.label,
            final(self).enable_btn.needs_repaint == old(self).enable_btn.needs_repaint,
            final(self).meter_in.value as int == (match old(self).ports.meter_in.from_host {
                Some(v) => clamp_spec(v as int, METER_MIN as int, METER_MAX as int),
                None => old(self).meter_in.value as int,
            }),
            final(self).meter_in.min_value == old(self).meter_in.min_value,
            final(self).meter_in.max_value == old(self).meter_in.max_value,
            final(self).meter_in.needs_repaint == (old(self).ports.meter_in.from_host is Some
                || old(self).meter_in.needs_repaint),
            final(self).meter_out.value as int == (match old(self).ports.meter_out.from_host {
                Some(v) => clamp_spec(v as int, METER_MIN as int, METER_MAX as int),
                None => old(self).meter_out.value as int,
            }),
            final(self).meter_out.min_value == old(self).meter_out.min_value,
            final(self).meter_out.max_value == old(self).meter_out.max_value,
            final(self).meter_out.needs_repaint == (old(self).ports.meter_out.from_host is Some
                || old(self).meter_out.needs_repaint),
    {
        if let Some(v) = self.ports.gain.value() {
            self.gain_dial.set_value(v);
        }
        if let Some(v) = self.ports.enabled.value() {
            self.enable_btn.set_toggle_state(v > TOGGLE_THRESHOLD);
        }
        if let Some(v) = self.ports.meter_in.value() {
            self.meter_in.set_value(v);
        }
        if let Some(v) = self.ports.meter_out.value() {
            self.meter_out.set_value(v);
        }
    }
}

} // verus!
