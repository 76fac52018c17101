//! The device monitor: passes on changes of the default devices, one per
//! kind and window of time.

use vstd::prelude::*;
use crate::actors::source::DeviceEvent;

verus! {

/// Time within which a repeated change is not passed on, in milliseconds.
pub const COALESCE_WINDOW_MS: u64 = 50;

/// Times are milliseconds on a clock that never runs backwards.
pub struct DeviceMonitor {
    pub last_input_ms: Option<u64>,
    pub last_output_ms: Option<u64>,
}

/// Whether a change at `now_ms` is passed on, the last one of its kind
/// having been passed on at `last_ms`.
pub open spec fn is_delivered(last_ms: Option<u64>, now_ms: u64) -> bool {
    match last_ms {
        Some(t) => now_ms >= t && now_ms - t >= COALESCE_WINDOW_MS,
        None => true,
    }
}

impl DeviceMonitor {
    /// When the last change of `event`'s kind was passed on.
    pub open spec fn last(self, event: DeviceEvent) -> Option<u64> {
        match event {
            DeviceEvent::DefaultInputChanged => self.last_input_ms,
            DeviceEvent::DefaultOutputChanged => self.last_output_ms,
        }
    }

    /// The monitor once a change has been passed on at `now_ms`.
    pub open spec fn delivered(self, event: DeviceEvent, now_ms: u64) -> DeviceMonitor {
        match event {
            DeviceEvent::DefaultInputChanged => DeviceMonitor {
                last_input_ms: Some(now_ms),
                ..self
            },
            DeviceEvent::DefaultOutputChanged => DeviceMonitor {
                last_output_ms: Some(now_ms),
                ..self
            },
        }
    }

    /// A monitor that has passed nothing on yet.
    pub fn spawn() -> (out: DeviceMonitor)
        ensures
            out.last_input_ms is None,
            out.last_output_ms is None,
    {
        DeviceMonitor { last_input_ms: None, last_output_ms: None }
    }

    /// Takes in a change at `now_ms`. Returns it where it is passed on;
    /// a change that follows one of its kind within the window is dropped.
    pub fn on_change(&mut self, event: DeviceEvent, now_ms: u64) -> (out: Option<DeviceEvent>)
        ensures
            out == if is_delivered(old(self).last(event), now_ms) {
                Some(event)
            } else {
                None
            },
            *final(self) == if is_delivered(old(self).last(event), now_ms) {
                old(self).delivered(event, now_ms)
            } else {
                *old(self)
            },
    {
        let last = match event {
            DeviceEvent::DefaultInputChanged => self.last_input_ms,
            DeviceEvent::DefaultOutputChanged => self.last_output_ms,
        };
        let deliver = match last {
            Some(t) => now_ms >= t && now_ms - t >= COALESCE_WINDOW_MS,
            None => true,
        };
        if deliver {
            match event {
                DeviceEvent::DefaultInputChanged => {
                    self.last_input_ms = Some(now_ms);
                },
                DeviceEvent::DefaultOutputChanged => {
                    self.last_output_ms = Some(now_ms);
                },
            }
            Some(event)
        } else {
            None
        }
    }
}

/// Two changes of one kind that are both passed on lie at least a window
/// apart.
pub proof fn law_changes_are_spaced(
    monitor: DeviceMonitor,
    event: DeviceEvent,
    first_ms: u64,
    second_ms: u64,
)
    requires
        first_ms <= second_ms,
        is_delivered(monitor.last(event), first_ms),
        is_delivered(monitor.delivered(event, first_ms).last(event), second_ms),
    ensures
        second_ms - first_ms >= COALESCE_WINDOW_MS,
{
}

} // verus!
