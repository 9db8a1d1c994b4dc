//! The units that flow through a pipeline, and the values that configure it.
//!
//! The core hands these on and never looks inside, so each holds only the
//! plain facts that a plugin and its caller exchange.

use vstd::prelude::*;
use vstd::std_specs::convert::FromSpecImpl;

verus! {

/// One unit of raw media, as handed to an encoder.
///
/// The caller keeps it: an encoder reads it during the call and no longer.
#[derive(Clone, Debug, PartialEq)]
pub struct Frame {
    /// The raw samples or picture planes.
    pub data: Vec<u8>,
    /// When the unit is to be presented, in units of the stream's time base.
    pub pts: Option<i64>,
}

/// One unit of encoded media, as an encoder produces it and a demuxer finds it.
#[derive(Clone, Debug, PartialEq)]
pub struct Packet {
    /// The encoded bytes.
    pub data: Vec<u8>,
    /// Where in the byte source the packet was found, if it came from one.
    pub pos: Option<usize>,
    /// The stream that the packet belongs to, or `-1` if it belongs to none yet.
    pub stream_index: isize,
    /// Whether decoding can start at this packet.
    pub is_key: bool,
    /// Whether the bytes are known to be damaged.
    pub is_corrupted: bool,
}

impl Packet {
    /// An empty packet, bound to no stream, with room for `capacity` bytes.
    pub fn with_capacity(capacity: usize) -> (packet: Packet)
        ensures
            packet.data@ == Seq::<u8>::empty(),
            packet.pos is None,
            packet.stream_index == -1,
            !packet.is_key,
            !packet.is_corrupted,
    {
        Packet {
            data: Vec::with_capacity(capacity),
            pos: None,
            stream_index: -1,
            is_key: false,
            is_corrupted: false,
        }
    }
}

/// One logical track of a container, as a demuxer discovers it.
#[derive(Clone, Debug, PartialEq)]
pub struct Stream {
    /// The identifier that the container gives the track.
    pub id: usize,
    /// The position of the track among those discovered so far.
    pub index: usize,
    /// Out-of-band initialisation data of the track's codec, if it has any.
    pub extradata: Option<Vec<u8>>,
}

/// A reference to a pixel format that is described elsewhere.
#[derive(Clone, Copy, Debug, PartialEq, Eq, Structural)]
pub struct FormatRef {
    /// The number under which the format is known to whoever describes it.
    pub id: u32,
}

/// A configuration value, passed to a plugin under a string key.
///
/// Which keys exist, and which kind of value each takes, is for the plugin
/// to say.
#[derive(Clone, Copy, Debug, PartialEq)]
pub enum Value<'a> {
    /// A signed integer.
    I64(i64),
    /// An unsigned integer.
    U64(u64),
    /// A string.
    Str(&'a str),
    /// A flag.
    Bool(bool),
    /// A pair of integers, such as a ratio.
    Pair(i64, i64),
    /// A pixel format.
    Formaton(FormatRef),
}

impl<'a> From<i64> for Value<'a> {
    fn from(v: i64) -> (value: Self) {
        Value::I64(v)
    }
}

impl<'a> FromSpecImpl<i64> for Value<'a> {
    open spec fn obeys_from_spec() -> bool {
        true
    }

    open spec fn from_spec(v: i64) -> Self {
        Value::I64(v)
    }
}

impl<'a> From<u64> for Value<'a> {
    fn from(v: u64) -> (value: Self) {
        Value::U64(v)
    }
}

impl<'a> FromSpecImpl<u64> for Value<'a> {
    open spec fn obeys_from_spec() -> bool {
        true
    }

    open spec fn from_spec(v: u64) -> Self {
        Value::U64(v)
    }
}

impl<'a> From<&'a str> for Value<'a> {
    fn from(v: &'a str) -> (value: Self) {
        Value::Str(v)
    }
}

impl<'a> FromSpecImpl<&'a str> for Value<'a> {
    open spec fn obeys_from_spec() -> bool {
        true
    }

    open spec fn from_spec(v: &'a str) -> Self {
        Value::Str(v)
    }
}

impl<'a> From<bool> for Value<'a> {
    fn from(v: bool) -> (value: Self) {
        Value::Bool(v)
    }
}

impl<'a> FromSpecImpl<bool> for Value<'a> {
    open spec fn obeys_from_spec() -> bool {
        true
    }

    open spec fn from_spec(v: bool) -> Self {
        Value::Bool(v)
    }
}

impl<'a> From<(i64, i64)> for Value<'a> {
    fn from(v: (i64, i64)) -> (value: Self) {
        Value::Pair(v.0, v.1)
    }
}

impl<'a> FromSpecImpl<(i64, i64)> for Value<'a> {
    open spec fn obeys_from_spec() -> bool {
        true
    }

    open spec fn from_spec(v: (i64, i64)) -> Self {
        Value::Pair(v.0, v.1)
    }
}

impl<'a> From<FormatRef> for Value<'a> {
    fn from(v: FormatRef) -> (value: Self) {
        Value::Formaton(v)
    }
}

impl<'a> FromSpecImpl<FormatRef> for Value<'a> {
    open spec fn obeys_from_spec() -> bool {
        true
    }

    open spec fn from_spec(v: FormatRef) -> Self {
        Value::Formaton(v)
    }
}

} // verus!
