//! Session lifecycle events and their controller-facing form.
//!
//! The worker thread reports its life through [`InternalAudioEvent`]s; the
//! controller polls them as flat [`AudioEvent`] records whose `type_` field
//! carries the variant as a string.  Levels travel as sample bit patterns
//! (see [`crate::sample`]); the unverified shell may view them as floats.

use vstd::prelude::*;
use vstd::string::StringExecFns;

verus! {

/// Mathematical image of an [`InternalAudioEvent`].
pub enum EventView {
    Started,
    Stopped,
    Error(Seq<char>),
    Levels { mic: u32, system: u32 },
    DeviceLost(Seq<char>),
    PipeWireDisconnected,
}

/// One occurrence in a capture session's life.  `Levels` carries the peak
/// magnitude of each role's metering window as sample bit patterns.
pub enum InternalAudioEvent {
    Started,
    Stopped,
    Error(String),
    Levels { mic: u32, system: u32 },
    DeviceLost(String),
    PipeWireDisconnected,
}

impl View for InternalAudioEvent {
    type V = EventView;

    open spec fn view(&self) -> EventView {
        match self {
            InternalAudioEvent::Started => EventView::Started,
            InternalAudioEvent::Stopped => EventView::Stopped,
            InternalAudioEvent::Error(m) => EventView::Error(m@),
            InternalAudioEvent::Levels { mic, system } => EventView::Levels {
                mic: *mic,
                system: *system,
            },
            InternalAudioEvent::DeviceLost(id) => EventView::DeviceLost(id@),
            InternalAudioEvent::PipeWireDisconnected => EventView::PipeWireDisconnected,
        }
    }
}

/// The events of a sequence, by view.
pub open spec fn events_view(s: Seq<InternalAudioEvent>) -> Seq<EventView> {
    s.map_values(|e: InternalAudioEvent| e@)
}

/// Mathematical image of an [`AudioEvent`].
pub struct AudioEventView {
    pub type_: Seq<char>,
    pub mic_level: Option<u32>,
    pub system_level: Option<u32>,
    pub message: Option<Seq<char>>,
    pub device_id: Option<Seq<char>>,
}

/// The flat, controller-facing form of an event: the variant as a string in
/// `type_`, with the variant's payload in whichever optional fields apply.
#[derive(Clone)]
pub struct AudioEvent {
    pub type_: String,
    pub mic_level: Option<u32>,
    pub system_level: Option<u32>,
    pub message: Option<String>,
    pub device_id: Option<String>,
}

impl View for AudioEvent {
    type V = AudioEventView;

    open spec fn view(&self) -> AudioEventView {
        AudioEventView {
            type_: self.type_@,
            mic_level: self.mic_level,
            system_level: self.system_level,
            message: match self.message {
                Some(m) => Some(m@),
                None => None,
            },
            device_id: match self.device_id {
                Some(d) => Some(d@),
                None => None,
            },
        }
    }
}

/// The flat record that each event converts to.
pub open spec fn audio_event_of(e: EventView) -> AudioEventView {
    match e {
        EventView::Started => AudioEventView {
            type_: "started"@,
            mic_level: None,
            system_level: None,
            message: None,
            device_id: None,
        },
        EventView::Stopped => AudioEventView {
            type_: "stopped"@,
            mic_level: None,
            system_level: None,
            message: None,
            device_id: None,
        },
        EventView::Error(m) => AudioEventView {
            type_: "error"@,
            mic_level: None,
            system_level: None,
            message: Some(m),
            device_id: None,
        },
        EventView::Levels { mic, system } => AudioEventView {
            type_: "levels"@,
            mic_level: Some(mic),
            system_level: Some(system),
            message: None,
            device_id: None,
        },
        EventView::DeviceLost(id) => AudioEventView {
            type_: "device_lost"@,
            mic_level: None,
            system_level: None,
            message: None,
            device_id: Some(id),
        },
        EventView::PipeWireDisconnected => AudioEventView {
            type_: "pipewire_disconnected"@,
            mic_level: None,
            system_level: None,
            message: None,
            device_id: None,
        },
    }
}

impl AudioEvent {
    /// Flatten an event into its controller-facing record.
    pub fn from(event: InternalAudioEvent) -> (r: AudioEvent)
        ensures
            r@ == audio_event_of(event@),
    {
        match event {
            InternalAudioEvent::Started => AudioEvent {
                type_: String::from_str("started"),
                mic_level: None,
                system_level: None,
                message: None,
                device_id: None,
            },
            InternalAudioEvent::Stopped => AudioEvent {
                type_: String::from_str("stopped"),
                mic_level: None,
                system_level: None,
                message: None,
                device_id: None,
            },
            InternalAudioEvent::Error(msg) => AudioEvent {
                type_: String::from_str("error"),
                mic_level: None,
                system_level: None,
                message: Some(msg),
                device_id: None,
            },
            InternalAudioEvent::Levels { mic, system } => AudioEvent {
                type_: String::from_str("levels"),
                mic_level: Some(mic),
                system_level: Some(system),
                message: None,
                device_id: None,
            },
            InternalAudioEvent::DeviceLost(id) => AudioEvent {
                type_: String::from_str("device_lost"),
                mic_level: None,
                system_level: None,
                message: None,
                device_id: Some(id),
            },
            InternalAudioEvent::PipeWireDisconnected => AudioEvent {
                type_: String::from_str("pipewire_disconnected"),
                mic_level: None,
                system_level: None,
                message: None,
                device_id: None,
            },
        }
    }
}

} // verus!
