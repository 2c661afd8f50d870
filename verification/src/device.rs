//! Devices and the classification of audio-server registry entries.
//!
//! A registry entry arrives as a string-keyed property bag.  An entry is a
//! candidate device only if its media-class property is exactly
//! `"Audio/Source"` (a microphone) or `"Audio/Sink"` (a speaker); every other
//! class is ignored.  Display names resolve through description, nickname and
//! technical name in that order; identifiers prefer the stable technical name
//! and fall back to the registry's ephemeral numeric id.

use vstd::prelude::*;
use vstd::string::StringExecFns;

verus! {

/// What kind of endpoint a device is.
#[derive(Clone, Copy, Debug, PartialEq, Eq, Structural)]
pub enum DeviceType {
    Microphone,
    Speaker,
    Monitor,
}

/// Mathematical image of a [`Device`].
pub struct DeviceView {
    pub id: Seq<char>,
    pub name: Seq<char>,
    pub device_type: DeviceType,
    pub is_bluetooth: bool,
    pub sample_rate: u32,
    pub channels: u8,
    pub is_default: bool,
    pub bluetooth_profile: Option<Seq<char>>,
}

/// One discovered audio device.
#[derive(Clone, Debug)]
pub struct Device {
    pub id: String,
    pub name: String,
    pub device_type: DeviceType,
    pub is_bluetooth: bool,
    pub sample_rate: u32,
    pub channels: u8,
    pub is_default: bool,
    pub bluetooth_profile: Option<String>,
}

impl View for Device {
    type V = DeviceView;

    open spec fn view(&self) -> DeviceView {
        DeviceView {
            id: self.id@,
            name: self.name@,
            device_type: self.device_type,
            is_bluetooth: self.is_bluetooth,
            sample_rate: self.sample_rate,
            channels: self.channels,
            is_default: self.is_default,
            bluetooth_profile: match self.bluetooth_profile {
                Some(p) => Some(p@),
                None => None,
            },
        }
    }
}

impl Device {
    /// Assemble a device record from its parts.
    pub fn new(
        id: String,
        name: String,
        device_type: DeviceType,
        is_bluetooth: bool,
        sample_rate: u32,
        channels: u8,
        is_default: bool,
        bluetooth_profile: Option<String>,
    ) -> (r: Device)
        ensures
            r@.id == id@,
            r@.name == name@,
            r@.device_type == device_type,
            r@.is_bluetooth == is_bluetooth,
            r@.sample_rate == sample_rate,
            r@.channels == channels,
            r@.is_default == is_default,
            r@.bluetooth_profile == (match bluetooth_profile {
                Some(p) => Some(p@),
                None => None::<Seq<char>>,
            }),
    {
        Device { id, name, device_type, is_bluetooth, sample_rate, channels, is_default, bluetooth_profile }
    }
}

/// The name of a device type, as its summary prints it.
pub open spec fn device_type_name(dt: DeviceType) -> Seq<char> {
    match dt {
        DeviceType::Microphone => "Microphone"@,
        DeviceType::Speaker => "Speaker"@,
        DeviceType::Monitor => "Monitor"@,
    }
}

/// The one-line summary of a device: its identifier, display name, type and
/// bluetooth flag.
pub open spec fn device_summary(d: DeviceView) -> Seq<char> {
    "Device(id='"@ + d.id + "', name='"@ + d.name + "', type="@ + device_type_name(d.device_type)
        + ", bt="@ + (if d.is_bluetooth {
        "true"@
    } else {
        "false"@
    }) + ")"@
}

impl Device {
    /// Render the one-line summary of this device.
    pub fn describe(&self) -> (r: String)
        ensures
            r@ == device_summary(self@),
    {
        let mut s = String::from_str("Device(id='");
        s.append(self.id.as_str());
        s.append("', name='");
        s.append(self.name.as_str());
        s.append("', type=");
        match self.device_type {
            DeviceType::Microphone => s.append("Microphone"),
            DeviceType::Speaker => s.append("Speaker"),
            DeviceType::Monitor => s.append("Monitor"),
        }
        s.append(", bt=");
        if self.is_bluetooth {
            s.append("true");
        } else {
            s.append("false");
        }
        s.append(")");
        proof {
            assert(s@ =~= device_summary(self@));
        }
        s
    }
}

/// First value bound to `key`, scanning entries in order.
pub open spec fn lookup(entries: Seq<(Seq<char>, Seq<char>)>, key: Seq<char>) -> Option<Seq<char>>
    decreases entries.len(),
{
    if entries.len() == 0 {
        None
    } else if entries[0].0 == key {
        Some(entries[0].1)
    } else {
        lookup(entries.drop_first(), key)
    }
}

/// A string-keyed property bag, as the audio server hands one to a registry
/// listener.  Unknown keys are carried but ignored; a lookup takes the first
/// binding of its key.
pub struct Props {
    pub entries: Vec<(String, String)>,
}

impl View for Props {
    type V = Seq<(Seq<char>, Seq<char>)>;

    open spec fn view(&self) -> Seq<(Seq<char>, Seq<char>)> {
        self.entries@.map_values(|e: (String, String)| (e.0@, e.1@))
    }
}

/// Whether two strings hold the same characters.
pub fn string_eq(a: &String, b: &String) -> (r: bool)
    ensures
        r == (a@ == b@),
{
    a.eq(b)
}

/// Whether a string holds the same characters as a string slice.
pub fn string_eq_str(a: &String, b: &str) -> (r: bool)
    ensures
        r == (a@ == b@),
{
    let bs = String::from_str(b);
    a.eq(&bs)
}

impl Props {
    /// An empty property bag.
    pub fn new() -> (r: Props)
        ensures
            r@ == Seq::<(Seq<char>, Seq<char>)>::empty(),
    {
        let r = Props { entries: Vec::new() };
        proof {
            assert(r@ =~= Seq::<(Seq<char>, Seq<char>)>::empty());
        }
        r
    }

    /// Append one binding.
    pub fn insert(&mut self, key: String, value: String)
        ensures
            final(self)@ == old(self)@.push((key@, value@)),
    {
        let ghost k = key@;
        let ghost v = value@;
        self.entries.push((key, value));
        proof {
            assert(self@ =~= old(self)@.push((k, v)));
        }
    }

    /// Look a key up, returning the first value bound to it.
    pub fn get(&self, key: &str) -> (r: Option<&String>)
        ensures
            match r {
                Some(v) => lookup(self@, key@) == Some(v@),
                None => lookup(self@, key@) is None,
            },
    {
        let mut i: usize = 0;
        proof {
            assert(self@.skip(0) =~= self@);
        }
        while i < self.entries.len()
            invariant
                i <= self.entries@.len(),
                self@.len() == self.entries@.len(),
                forall|j: int| 0 <= j < self.entries@.len() ==> self@[j] == (
                    self.entries@[j].0@,
                    self.entries@[j].1@,
                ),
                lookup(self@, key@) == lookup(self@.skip(i as int), key@),
            decreases self.entries@.len() - i,
        {
            if string_eq_str(&self.entries[i].0, key) {
                proof {
                    assert(self@.skip(i as int)[0] == self@[i as int]);
                }
                return Some(&self.entries[i].1);
            }
            proof {
                assert(self@.skip(i as int)[0] == self@[i as int]);
                assert(self@.skip(i as int).drop_first() =~= self@.skip(i + 1));
            }
            i = i + 1;
        }
        proof {
            assert(self@.skip(i as int).len() == 0);
        }
        None
    }
}

/// How a media-class string classifies: `"Audio/Source"` is a microphone,
/// `"Audio/Sink"` is a speaker, anything else is no device at all.
pub open spec fn classify_media_class(mc: Seq<char>) -> Option<DeviceType> {
    if mc == "Audio/Source"@ {
        Some(DeviceType::Microphone)
    } else if mc == "Audio/Sink"@ {
        Some(DeviceType::Speaker)
    } else {
        None
    }
}

/// Classify a media-class string.
pub fn classify(mc: &String) -> (r: Option<DeviceType>)
    ensures
        r == classify_media_class(mc@),
{
    if string_eq_str(mc, "Audio/Source") {
        Some(DeviceType::Microphone)
    } else if string_eq_str(mc, "Audio/Sink") {
        Some(DeviceType::Speaker)
    } else {
        None
    }
}

/// The character for one decimal digit.
pub open spec fn digit_char(d: nat) -> char
    recommends
        d < 10,
{
    if d == 0 {
        '0'
    } else if d == 1 {
        '1'
    } else if d == 2 {
        '2'
    } else if d == 3 {
        '3'
    } else if d == 4 {
        '4'
    } else if d == 5 {
        '5'
    } else if d == 6 {
        '6'
    } else if d == 7 {
        '7'
    } else if d == 8 {
        '8'
    } else {
        '9'
    }
}

/// The decimal rendering of a natural number, most significant digit first.
pub open spec fn dec_str(n: nat) -> Seq<char>
    decreases n,
{
    if n < 10 {
        seq![digit_char(n)]
    } else {
        dec_str(n / 10).push(digit_char(n % 10))
    }
}

/// The string for one decimal digit.
fn digit_str(d: u32) -> (r: &'static str)
    requires
        d < 10,
    ensures
        r@ == seq![digit_char(d as nat)],
{
    proof {
        reveal_strlit("0");
        reveal_strlit("1");
        reveal_strlit("2");
        reveal_strlit("3");
        reveal_strlit("4");
        reveal_strlit("5");
        reveal_strlit("6");
        reveal_strlit("7");
        reveal_strlit("8");
        reveal_strlit("9");
    }
    let r = if d == 0 {
        "0"
    } else if d == 1 {
        "1"
    } else if d == 2 {
        "2"
    } else if d == 3 {
        "3"
    } else if d == 4 {
        "4"
    } else if d == 5 {
        "5"
    } else if d == 6 {
        "6"
    } else if d == 7 {
        "7"
    } else if d == 8 {
        "8"
    } else {
        "9"
    };
    proof {
        assert(r@ =~= seq![digit_char(d as nat)]);
    }
    r
}

/// Render a registry id in decimal, for use as a fallback identifier.
pub fn u32_to_string(n: u32) -> (r: String)
    ensures
        r@ == dec_str(n as nat),
    decreases n,
{
    if n < 10 {
        String::from_str(digit_str(n))
    } else {
        let mut s = u32_to_string(n / 10);
        s.append(digit_str(n % 10));
        proof {
            assert(dec_str((n / 10) as nat) + seq![digit_char((n % 10) as nat)]
                =~= dec_str(n as nat));
        }
        s
    }
}

/// The display name a property bag resolves to: the description property,
/// else the nickname, else the raw technical name, else `"Unknown Device"`.
pub open spec fn display_name_of(props: Seq<(Seq<char>, Seq<char>)>) -> Seq<char> {
    match lookup(props, "node.description"@) {
        Some(d) => d,
        None => match lookup(props, "node.nick"@) {
            Some(nick) => nick,
            None => match lookup(props, "node.name"@) {
                Some(name) => name,
                None => "Unknown Device"@,
            },
        },
    }
}

/// The identifier a property bag resolves to: the stable technical name if
/// present, else the registry's ephemeral numeric id rendered in decimal.
/// The numeric fallback is not stable across enumeration calls, so default
/// matching against it is a known limitation, kept deliberately.
pub open spec fn device_id_of(props: Seq<(Seq<char>, Seq<char>)>, global_id: u32) -> Seq<char> {
    match lookup(props, "node.name"@) {
        Some(name) => name,
        None => dec_str(global_id as nat),
    }
}

/// Whether the property bag marks a bluetooth device: the API-vendor
/// property equals `"bluez5"`.
pub open spec fn is_bluetooth_of(props: Seq<(Seq<char>, Seq<char>)>) -> bool {
    lookup(props, "device.api"@) == Some("bluez5"@)
}

/// The optional bluetooth profile property.
pub open spec fn bluetooth_profile_of(props: Seq<(Seq<char>, Seq<char>)>) -> Option<Seq<char>> {
    lookup(props, "api.bluez5.profile"@)
}

/// The device a registry entry describes, if its media class names one.
/// Sample rate and channel count are the server's common defaults; reading
/// the negotiated format would take further queries.  `is_default` starts
/// false and is resolved after enumeration.
pub open spec fn device_of(props: Seq<(Seq<char>, Seq<char>)>, global_id: u32) -> Option<
    DeviceView,
> {
    match lookup(props, "media.class"@) {
        None => None,
        Some(mc) => match classify_media_class(mc) {
            None => None,
            Some(dt) => Some(
                DeviceView {
                    id: device_id_of(props, global_id),
                    name: display_name_of(props),
                    device_type: dt,
                    is_bluetooth: is_bluetooth_of(props),
                    sample_rate: 48000,
                    channels: 2,
                    is_default: false,
                    bluetooth_profile: bluetooth_profile_of(props),
                },
            ),
        },
    }
}

/// Resolve the display name of a registry entry.
pub fn display_name(props: &Props) -> (r: String)
    ensures
        r@ == display_name_of(props@),
{
    match props.get("node.description") {
        Some(d) => d.clone(),
        None => match props.get("node.nick") {
            Some(nick) => nick.clone(),
            None => match props.get("node.name") {
                Some(name) => name.clone(),
                None => String::from_str("Unknown Device"),
            },
        },
    }
}

/// Resolve the identifier of a registry entry.
pub fn device_id(props: &Props, global_id: u32) -> (r: String)
    ensures
        r@ == device_id_of(props@, global_id),
{
    match props.get("node.name") {
        Some(name) => name.clone(),
        None => u32_to_string(global_id),
    }
}

/// Build the device a registry entry describes, if any.
pub fn device_from_entry(global_id: u32, props: &Props) -> (r: Option<Device>)
    ensures
        match r {
            Some(d) => device_of(props@, global_id) == Some(d@),
            None => device_of(props@, global_id) is None,
        },
{
    let mc = match props.get("media.class") {
        Some(mc) => mc,
        None => {
            return None;
        },
    };
    let dt = match classify(mc) {
        Some(dt) => dt,
        None => {
            return None;
        },
    };
    let is_bluetooth = match props.get("device.api") {
        Some(api) => string_eq_str(api, "bluez5"),
        None => false,
    };
    let bluetooth_profile = match props.get("api.bluez5.profile") {
        Some(p) => Some(p.clone()),
        None => None,
    };
    Some(
        Device {
            id: device_id(props, global_id),
            name: display_name(props),
            device_type: dt,
            is_bluetooth,
            sample_rate: 48000,
            channels: 2,
            is_default: false,
            bluetooth_profile,
        },
    )
}

} // verus!
