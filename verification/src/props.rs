//! Properties that describe the client and its stream to the audio server.

use crate::text::{decimal, decimal_text};
use vstd::prelude::*;
use vstd::string::*;

verus! {

/// Configuration key under which the host keeps the name of the output device.
pub const SOUNDCARD_CONFIG_KEY: &'static str = "pipewirerust_soundcard";

/// Device name that stands for "let the audio server choose".
pub const DEFAULT_SOUNDCARD: &'static str = "default";

/// Title-format template for the stream's display name.
pub const TITLE_TEMPLATE: &'static str = "[%artist% - ]%title%";

/// Keys of the properties this crate sets.
#[derive(Clone, Copy, Debug, PartialEq, Eq, Structural)]
pub enum PropertyKey {
    MediaType,
    MediaCategory,
    MediaRole,
    MediaName,
    NodeName,
    NodeLatency,
    NodeRate,
    AppName,
    AppId,
    AppIconName,
    TargetObject,
}

/// One property: a key and its value.
#[derive(Clone, Debug, PartialEq, Eq)]
pub struct Property {
    pub key: PropertyKey,
    pub value: String,
}

/// A property with its value as a sequence of characters.
pub struct PropertyView {
    pub key: PropertyKey,
    pub value: Seq<char>,
}

impl View for Property {
    type V = PropertyView;

    open spec fn view(&self) -> PropertyView {
        PropertyView { key: self.key, value: self.value@ }
    }
}

impl DeepView for Property {
    type V = PropertyView;

    open spec fn deep_view(&self) -> PropertyView {
        self.view()
    }
}

/// The property `key` with the value `value`.
pub open spec fn prop(key: PropertyKey, value: Seq<char>) -> PropertyView {
    PropertyView { key, value }
}

fn property(key: PropertyKey, value: &str) -> (p: Property)
    ensures
        p@ == prop(key, value@),
{
    Property { key, value: value.to_owned() }
}

/// The rate hint for a sample rate: one over the rate.
pub open spec fn rate_hint(samplerate: u32) -> Seq<char> {
    "1/"@ + decimal(samplerate as nat)
}

/// Writes the rate hint for a sample rate.
pub fn rate_hint_text(samplerate: u32) -> (text: String)
    ensures
        text@ == rate_hint(samplerate),
{
    let digits = decimal_text(samplerate);
    "1/".to_owned().concat(digits.as_str())
}

/// Properties of the client connection.
pub open spec fn spec_client_properties() -> Seq<PropertyView> {
    seq![
        prop(PropertyKey::AppName, "DeadBeef"@),
        prop(PropertyKey::AppId, "music.player.deadbeef"@),
        prop(PropertyKey::AppIconName, "deadbeef"@),
    ]
}

/// Properties of the client connection: who is connecting.
pub fn client_properties() -> (props: Vec<Property>)
    ensures
        props.deep_view() == spec_client_properties(),
{
    let mut props: Vec<Property> = Vec::new();
    props.push(property(PropertyKey::AppName, "DeadBeef"));
    props.push(property(PropertyKey::AppId, "music.player.deadbeef"));
    props.push(property(PropertyKey::AppIconName, "deadbeef"));
    assert(props.deep_view() =~= spec_client_properties());
    props
}

/// Properties that follow a sample rate: the rate hint and the latency.
pub open spec fn spec_rate_properties(samplerate: u32) -> Seq<PropertyView> {
    seq![
        prop(PropertyKey::NodeRate, rate_hint(samplerate)),
        prop(PropertyKey::NodeLatency, "1200/48000"@),
    ]
}

/// Properties to update once a stream runs at `samplerate`.
pub fn rate_properties(samplerate: u32) -> (props: Vec<Property>)
    ensures
        props.deep_view() == spec_rate_properties(samplerate),
{
    let mut props: Vec<Property> = Vec::new();
    props.push(Property { key: PropertyKey::NodeRate, value: rate_hint_text(samplerate) });
    props.push(property(PropertyKey::NodeLatency, "1200/48000"));
    assert(props.deep_view() =~= spec_rate_properties(samplerate));
    props
}

/// The one property that carries a title.
pub open spec fn spec_title_properties(title: Seq<char>) -> Seq<PropertyView> {
    seq![prop(PropertyKey::MediaName, title)]
}

/// Properties to update when the title changes: the display name only.
pub fn title_properties(title: String) -> (props: Vec<Property>)
    ensures
        props.deep_view() == spec_title_properties(title@),
{
    let mut props: Vec<Property> = Vec::new();
    props.push(Property { key: PropertyKey::MediaName, value: title });
    assert(props.deep_view() =~= spec_title_properties(title@));
    props
}

/// Properties of a new stream: its fixed description, the rate hint for
/// `samplerate`, the target device unless it is the default one, and the
/// title if there is one.
pub open spec fn spec_stream_properties(
    samplerate: u32,
    device: Seq<char>,
    title: Option<Seq<char>>,
) -> Seq<PropertyView> {
    let fixed = seq![
        prop(PropertyKey::MediaType, "Audio"@),
        prop(PropertyKey::MediaCategory, "Playback"@),
        prop(PropertyKey::MediaRole, "Music"@),
        prop(PropertyKey::NodeName, "DeadBeef"@),
        prop(PropertyKey::AppName, "DeadBeef"@),
        prop(PropertyKey::AppId, "music.player.deadbeef"@),
        prop(PropertyKey::AppIconName, "deadbeef"@),
        prop(PropertyKey::NodeLatency, "1200/48000"@),
        prop(PropertyKey::NodeRate, rate_hint(samplerate)),
    ];
    let target = if device == DEFAULT_SOUNDCARD@ {
        Seq::<PropertyView>::empty()
    } else {
        seq![prop(PropertyKey::TargetObject, device)]
    };
    let name = match title {
        Some(t) => seq![prop(PropertyKey::MediaName, t)],
        None => Seq::<PropertyView>::empty(),
    };
    fixed + target + name
}

/// Properties of a new stream that starts at `samplerate`, for the configured
/// `device` and the current `title`, if the host could format one.
pub fn stream_properties(samplerate: u32, device: String, title: Option<String>) -> (props: Vec<
    Property,
>)
    ensures
        props.deep_view() == spec_stream_properties(
            samplerate,
            device@,
            match title {
                Some(t) => Some(t@),
                None => None,
            },
        ),
{
    let mut props: Vec<Property> = Vec::new();
    props.push(property(PropertyKey::MediaType, "Audio"));
    props.push(property(PropertyKey::MediaCategory, "Playback"));
    props.push(property(PropertyKey::MediaRole, "Music"));
    props.push(property(PropertyKey::NodeName, "DeadBeef"));
    props.push(property(PropertyKey::AppName, "DeadBeef"));
    props.push(property(PropertyKey::AppId, "music.player.deadbeef"));
    props.push(property(PropertyKey::AppIconName, "deadbeef"));
    props.push(property(PropertyKey::NodeLatency, "1200/48000"));
    props.push(Property { key: PropertyKey::NodeRate, value: rate_hint_text(samplerate) });
    let is_default = device == DEFAULT_SOUNDCARD.to_owned();
    if !is_default {
        props.push(Property { key: PropertyKey::TargetObject, value: device });
    }
    match title {
        Some(t) => {
            props.push(Property { key: PropertyKey::MediaName, value: t });
        },
        None => {},
    }
    assert(props.deep_view() =~= spec_stream_properties(
        samplerate,
        device@,
        match title {
            Some(t) => Some(t@),
            None => None,
        },
    ));
    props
}

impl PropertyKey {
    /// The key's name where this crate spells it out; the other keys go by
    /// the names the audio server's client library gives them.
    pub fn literal(&self) -> (name: Option<&'static str>)
        ensures
            name matches Some(n) ==> (*self == PropertyKey::NodeLatency && n@ == "node.latency"@)
                || (*self == PropertyKey::NodeRate && n@ == "node.rate"@),
            name is Some <==> *self == PropertyKey::NodeLatency || *self == PropertyKey::NodeRate,
    {
        match self {
            PropertyKey::NodeLatency => Some("node.latency"),
            PropertyKey::NodeRate => Some("node.rate"),
            _ => None,
        }
    }
}

} // verus!
