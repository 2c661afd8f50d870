//! One-shot device enumeration with default-device resolution.
//!
//! The snapshot is a fold over what the registry listener observes: global
//! registrations, default-device metadata properties, and the completion
//! acknowledgment of one synchronization request.  The acknowledgment is the
//! enumeration boundary: once it has been observed, later observations leave
//! the snapshot untouched.  After the fold, exactly the devices whose
//! identifier matches a resolved default name are marked default.

use vstd::prelude::*;
use vstd::string::{StringExecFns, StrSliceExecFns};
use crate::device::{device_of, lookup, Device, DeviceType, DeviceView, Props};

verus! {

/// What a parsed default-device value resolves to when it is a JSON object:
/// the string under its `name` field, if the value parses as JSON and has
/// one.  A function of the characters alone.
pub uninterp spec fn json_name_of(s: Seq<char>) -> Option<Seq<char>>;

/// Relies on `serde_json::from_str::<Value>`, `Value::get` and
/// `Value::as_str`: parse the string as JSON and give the string under the
/// object's `name` field, or nothing if the string is not valid JSON or has
/// no string there.  The outcome depends on the characters of `s` alone.
#[verifier::external_body]
fn json_name_field(s: &str) -> (r: Option<String>)
    ensures
        match r {
            Some(n) => json_name_of(s@) == Some(n@),
            None => json_name_of(s@) is None,
        },
{
    match serde_json::from_str::<serde_json::Value>(s) {
        Ok(v) => match v.get("name") {
            Some(n) => n.as_str().map(|x| x.to_string()),
            None => None,
        },
        Err(_) => None,
    }
}

/// What a default-device metadata value resolves to.  A value opening a JSON
/// object resolves through its `name` field; any other value is taken as the
/// bare identifier itself.
pub open spec fn parse_default_spec(v: Seq<char>) -> Option<Seq<char>> {
    if v.len() > 0 && v[0] == '{' {
        json_name_of(v)
    } else {
        Some(v)
    }
}

/// Resolve a default-device metadata value, which may be a bare identifier
/// string or a JSON object carrying a `name` field.
pub fn parse_default_device(json_val: &str) -> (r: Option<String>)
    ensures
        match r {
            Some(n) => parse_default_spec(json_val@) == Some(n@),
            None => parse_default_spec(json_val@) is None,
        },
{
    if json_val.unicode_len() > 0 && json_val.get_char(0) == '{' {
        json_name_field(json_val)
    } else {
        Some(String::from_str(json_val))
    }
}

/// Whether a registry entry is the singular well-known metadata object that
/// holds the default-device assignments: a metadata-typed object whose
/// `metadata.name` property is exactly `"default"`.
pub open spec fn is_default_metadata_spec(
    type_is_metadata: bool,
    props: Seq<(Seq<char>, Seq<char>)>,
) -> bool {
    type_is_metadata && lookup(props, "metadata.name"@) == Some("default"@)
}

/// Recognise the default-device metadata object among registry entries; the
/// property stream to subscribe to for default-source and default-sink
/// assignments is its.
pub fn is_default_metadata(type_is_metadata: bool, props: &Props) -> (r: bool)
    ensures
        r == is_default_metadata_spec(type_is_metadata, props@),
{
    if !type_is_metadata {
        return false;
    }
    match props.get("metadata.name") {
        Some(name) => crate::device::string_eq_str(name, "default"),
        None => false,
    }
}

/// Mathematical image of an [`Observation`].
pub enum ObservationView {
    Global { id: u32, props: Seq<(Seq<char>, Seq<char>)> },
    MetadataProperty { subject: u32, key: Option<Seq<char>>, value: Option<Seq<char>> },
    Done { id: u32, seq: i32 },
}

/// One thing the worker's listeners observe while the enumeration loop runs:
/// a registry global with its property bag, a property of the default-device
/// metadata object, or a completion acknowledgment.
pub enum Observation {
    Global { id: u32, props: Props },
    MetadataProperty { subject: u32, key: Option<String>, value: Option<String> },
    Done { id: u32, seq: i32 },
}

impl View for Observation {
    type V = ObservationView;

    open spec fn view(&self) -> ObservationView {
        match self {
            Observation::Global { id, props } => ObservationView::Global {
                id: *id,
                props: props@,
            },
            Observation::MetadataProperty { subject, key, value } => {
                ObservationView::MetadataProperty {
                    subject: *subject,
                    key: match key {
                        Some(k) => Some(k@),
                        None => None,
                    },
                    value: match value {
                        Some(v) => Some(v@),
                        None => None,
                    },
                }
            },
            Observation::Done { id, seq } => ObservationView::Done { id: *id, seq: *seq },
        }
    }
}

/// Mathematical image of an [`EnumState`].
pub struct EnumStateView {
    pub devices: Seq<DeviceView>,
    pub default_source: Option<Seq<char>>,
    pub default_sink: Option<Seq<char>>,
    pub core_id: u32,
    pub pending_seq: i32,
    pub finished: bool,
}

/// The devices of a sequence, by view.
pub open spec fn devices_view(s: Seq<Device>) -> Seq<DeviceView> {
    s.map_values(|d: Device| d@)
}

/// The running state of one enumeration: the devices captured so far, the
/// default names resolved so far, and whether the synchronization
/// acknowledgment tied to (`core_id`, `pending_seq`) has been observed.
pub struct EnumState {
    pub devices: Vec<Device>,
    pub default_source: Option<String>,
    pub default_sink: Option<String>,
    pub core_id: u32,
    pub pending_seq: i32,
    pub finished: bool,
}

impl View for EnumState {
    type V = EnumStateView;

    open spec fn view(&self) -> EnumStateView {
        EnumStateView {
            devices: devices_view(self.devices@),
            default_source: match self.default_source {
                Some(s) => Some(s@),
                None => None,
            },
            default_sink: match self.default_sink {
                Some(s) => Some(s@),
                None => None,
            },
            core_id: self.core_id,
            pending_seq: self.pending_seq,
            finished: self.finished,
        }
    }
}

/// How one observation advances an enumeration.  Nothing changes once the
/// acknowledgment has been observed; a global adds the device its properties
/// describe, if any; a metadata property of the global subject updates a
/// resolved default name, retaining the prior value when the new one does
/// not parse; the acknowledgment with the awaited id and sequence number
/// finishes the enumeration.
pub open spec fn enum_step(s: EnumStateView, o: ObservationView) -> EnumStateView {
    if s.finished {
        s
    } else {
        match o {
            ObservationView::Global { id, props } => match device_of(props, id) {
                Some(d) => EnumStateView { devices: s.devices.push(d), ..s },
                None => s,
            },
            ObservationView::MetadataProperty { subject, key, value } => {
                if subject == 0 && key == Some("default.audio.source"@) {
                    match value {
                        Some(v) => match parse_default_spec(v) {
                            Some(n) => EnumStateView { default_source: Some(n), ..s },
                            None => s,
                        },
                        None => s,
                    }
                } else if subject == 0 && key == Some("default.audio.sink"@) {
                    match value {
                        Some(v) => match parse_default_spec(v) {
                            Some(n) => EnumStateView { default_sink: Some(n), ..s },
                            None => s,
                        },
                        None => s,
                    }
                } else {
                    s
                }
            },
            ObservationView::Done { id, seq } => {
                if id == s.core_id && seq == s.pending_seq {
                    EnumStateView { finished: true, ..s }
                } else {
                    s
                }
            },
        }
    }
}

/// An enumeration folded over a whole sequence of observations.
pub open spec fn enum_fold(s: EnumStateView, os: Seq<ObservationView>) -> EnumStateView
    decreases os.len(),
{
    if os.len() == 0 {
        s
    } else {
        enum_fold(enum_step(s, os[0]), os.drop_first())
    }
}

/// Law: the synchronization acknowledgment is the enumeration boundary.
/// Whatever is observed once an enumeration has finished — devices
/// registered after the acknowledgment included — leaves the whole snapshot
/// exactly as it was.
pub proof fn lemma_snapshot_boundary(s: EnumStateView, os: Seq<ObservationView>)
    requires
        s.finished,
    ensures
        enum_fold(s, os) == s,
    decreases os.len(),
{
    if os.len() > 0 {
        assert(enum_step(s, os[0]) == s);
        lemma_snapshot_boundary(s, os.drop_first());
    }
}

/// Law: from a running enumeration, the awaited acknowledgment captures the
/// snapshot: it changes nothing but the finished flag, and no observation
/// after it changes anything at all.
pub proof fn lemma_ack_freezes_snapshot(s: EnumStateView, os: Seq<ObservationView>)
    requires
        !s.finished,
    ensures
        ({
            let acked = enum_step(s, ObservationView::Done { id: s.core_id, seq: s.pending_seq });
            &&& acked.devices == s.devices
            &&& acked.default_source == s.default_source
            &&& acked.default_sink == s.default_sink
            &&& acked.finished
            &&& enum_fold(acked, os) == acked
        }),
{
    let acked = enum_step(s, ObservationView::Done { id: s.core_id, seq: s.pending_seq });
    lemma_snapshot_boundary(acked, os);
}

impl EnumState {
    /// Start an enumeration awaiting the acknowledgment tied to the given
    /// core id and synchronization sequence number.
    pub fn new(core_id: u32, pending_seq: i32) -> (r: EnumState)
        ensures
            r@.devices == Seq::<DeviceView>::empty(),
            r@.default_source is None,
            r@.default_sink is None,
            r@.core_id == core_id,
            r@.pending_seq == pending_seq,
            !r@.finished,
    {
        let r = EnumState {
            devices: Vec::new(),
            default_source: None,
            default_sink: None,
            core_id,
            pending_seq,
            finished: false,
        };
        proof {
            assert(r@.devices =~= Seq::<DeviceView>::empty());
        }
        r
    }

    /// Feed one observation into the enumeration.
    pub fn observe(&mut self, o: Observation)
        ensures
            final(self)@ == enum_step(old(self)@, o@),
    {
        if self.finished {
            return;
        }
        match o {
            Observation::Global { id, props } => {
                match crate::device::device_from_entry(id, &props) {
                    Some(d) => {
                        let ghost dv = d@;
                        self.devices.push(d);
                        proof {
                            assert(self@.devices =~= old(self)@.devices.push(dv));
                        }
                    },
                    None => {},
                }
            },
            Observation::MetadataProperty { subject, key, value } => {
                if subject == 0 {
                    let is_source = match &key {
                        Some(k) => crate::device::string_eq_str(k, "default.audio.source"),
                        None => false,
                    };
                    let is_sink = match &key {
                        Some(k) => crate::device::string_eq_str(k, "default.audio.sink"),
                        None => false,
                    };
                    if is_source {
                        if let Some(v) = value {
                            if let Some(n) = parse_default_device(v.as_str()) {
                                self.default_source = Some(n);
                            }
                        }
                    } else if is_sink {
                        if let Some(v) = value {
                            if let Some(n) = parse_default_device(v.as_str()) {
                                self.default_sink = Some(n);
                            }
                        }
                    }
                }
            },
            Observation::Done { id, seq } => {
                if id == self.core_id && seq == self.pending_seq {
                    self.finished = true;
                }
            },
        }
    }
}

/// A device with its default flag resolved: a microphone whose identifier is
/// the resolved default source, or a speaker whose identifier is the
/// resolved default sink, is marked default; every other flag is kept.
pub open spec fn marked_device(
    d: DeviceView,
    src: Option<Seq<char>>,
    sink: Option<Seq<char>>,
) -> DeviceView {
    DeviceView {
        is_default: d.is_default || (d.device_type == DeviceType::Microphone && src == Some(d.id))
            || (d.device_type == DeviceType::Speaker && sink == Some(d.id)),
        ..d
    }
}

/// Every device of a snapshot with its default flag resolved.
pub open spec fn mark_defaults(
    ds: Seq<DeviceView>,
    src: Option<Seq<char>>,
    sink: Option<Seq<char>>,
) -> Seq<DeviceView> {
    Seq::new(ds.len(), |i: int| marked_device(ds[i], src, sink))
}

impl EnumState {
    /// Close the enumeration: resolve the default flags against the captured
    /// default names and hand the snapshot out.
    pub fn finish(self) -> (r: Vec<Device>)
        ensures
            devices_view(r@) == mark_defaults(self@.devices, self@.default_source, self@.default_sink),
    {
        let EnumState { devices, default_source, default_sink, .. } = self;
        let ghost src = match default_source {
            Some(ref s) => Some(s@),
            None => None::<Seq<char>>,
        };
        let ghost sink = match default_sink {
            Some(ref s) => Some(s@),
            None => None::<Seq<char>>,
        };
        let mut out: Vec<Device> = Vec::new();
        let mut i: usize = 0;
        while i < devices.len()
            invariant
                i <= devices@.len(),
                out@.len() == i,
                src == (match default_source {
                    Some(ref s) => Some(s@),
                    None => None::<Seq<char>>,
                }),
                sink == (match default_sink {
                    Some(ref s) => Some(s@),
                    None => None::<Seq<char>>,
                }),
                forall|j: int| 0 <= j < i ==> out@[j]@ == marked_device(devices@[j]@, src, sink),
            decreases devices@.len() - i,
        {
            let d = &devices[i];
            let matches_source = match &default_source {
                Some(s) => d.device_type == DeviceType::Microphone && crate::device::string_eq(
                    &d.id,
                    s,
                ),
                None => false,
            };
            let matches_sink = match &default_sink {
                Some(s) => d.device_type == DeviceType::Speaker && crate::device::string_eq(
                    &d.id,
                    s,
                ),
                None => false,
            };
            let nd = Device {
                id: d.id.clone(),
                name: d.name.clone(),
                device_type: d.device_type,
                is_bluetooth: d.is_bluetooth,
                sample_rate: d.sample_rate,
                channels: d.channels,
                is_default: d.is_default || matches_source || matches_sink,
                bluetooth_profile: match &d.bluetooth_profile {
                    Some(p) => Some(p.clone()),
                    None => None,
                },
            };
            out.push(nd);
            i = i + 1;
        }
        proof {
            assert(devices_view(out@) =~= mark_defaults(
                devices_view(devices@),
                src,
                sink,
            ));
        }
        out
    }
}

} // verus!
