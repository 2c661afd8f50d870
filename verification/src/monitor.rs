//! Continuous device-topology monitoring: the hotplug feed.
//!
//! The monitor shares the enumeration's classification rule to decide which
//! registry additions are device-relevant, and reports every global removal
//! by id — the server does not resurface properties on removal.  It has no
//! synchronization boundary; it runs until a stop command is drained by its
//! own coarser tick.

use vstd::prelude::*;
use vstd::string::StringExecFns;
use crate::device::{
    classify_media_class, dec_str, device_id_of, display_name_of, lookup, Props,
};

verus! {

/// Mathematical image of a [`DeviceEvent`].
pub struct DeviceEventView {
    pub type_: Seq<char>,
    pub device_id: Option<Seq<char>>,
    pub device_name: Option<Seq<char>>,
}

/// One hotplug occurrence: `type_` is `"added"` or `"removed"`, with the
/// identifier always present and the display name only on additions.
#[derive(Clone, Debug)]
pub struct DeviceEvent {
    pub type_: String,
    pub device_id: Option<String>,
    pub device_name: Option<String>,
}

impl View for DeviceEvent {
    type V = DeviceEventView;

    open spec fn view(&self) -> DeviceEventView {
        DeviceEventView {
            type_: self.type_@,
            device_id: match self.device_id {
                Some(id) => Some(id@),
                None => None,
            },
            device_name: match self.device_name {
                Some(n) => Some(n@),
                None => None,
            },
        }
    }
}

/// What a registry addition reports: an added event exactly when the entry's
/// media class names a device, carrying the resolved identifier and display
/// name.
pub open spec fn added_event_of(props: Seq<(Seq<char>, Seq<char>)>, id: u32) -> Option<
    DeviceEventView,
> {
    match lookup(props, "media.class"@) {
        Some(mc) => if classify_media_class(mc) is Some {
            Some(
                DeviceEventView {
                    type_: "added"@,
                    device_id: Some(device_id_of(props, id)),
                    device_name: Some(display_name_of(props)),
                },
            )
        } else {
            None
        },
        None => None,
    }
}

/// What a registry removal reports: a removed event carrying only the
/// numeric id, rendered in decimal.
pub open spec fn removed_event_of(id: u32) -> DeviceEventView {
    DeviceEventView { type_: "removed"@, device_id: Some(dec_str(id as nat)), device_name: None }
}

/// Build the hotplug event a registry addition reports, if any.
pub fn added_event(id: u32, props: &Props) -> (r: Option<DeviceEvent>)
    ensures
        match r {
            Some(e) => added_event_of(props@, id) == Some(e@),
            None => added_event_of(props@, id) is None,
        },
{
    let mc = match props.get("media.class") {
        Some(mc) => mc,
        None => {
            return None;
        },
    };
    if crate::device::classify(mc).is_none() {
        return None;
    }
    Some(
        DeviceEvent {
            type_: String::from_str("added"),
            device_id: Some(crate::device::device_id(props, id)),
            device_name: Some(crate::device::display_name(props)),
        },
    )
}

/// Build the hotplug event a registry removal reports.
pub fn removed_event(id: u32) -> (r: DeviceEvent)
    ensures
        r@ == removed_event_of(id),
{
    DeviceEvent {
        type_: String::from_str("removed"),
        device_id: Some(crate::device::u32_to_string(id)),
        device_name: None,
    }
}

/// The monitor's own stop discipline, mirroring the session watchdog at a
/// coarser tick.
pub struct MonitorState {
    pub stopped: bool,
}

impl MonitorState {
    /// A monitor that has not been stopped.
    pub fn new() -> (r: MonitorState)
        ensures
            !r.stopped,
    {
        MonitorState { stopped: false }
    }

    /// One monitor tick: drain at most one pending stop command; a drained
    /// stop asks the event loop to quit.
    pub fn on_tick(&mut self, stop_pending: bool) -> (quit: bool)
        ensures
            final(self).stopped == (old(self).stopped || stop_pending),
            quit == stop_pending,
    {
        if stop_pending {
            self.stopped = true;
        }
        stop_pending
    }
}

} // verus!
