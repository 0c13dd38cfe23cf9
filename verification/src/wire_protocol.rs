//! Wire envelope: one leading type byte, then the payload of that type.

use crate::serialization::{
    lemma_u32_roundtrip, lemma_widths, push_u32, read_u32, u32_at, u32_le, SerializationError,
    INPUT_PAIR_LEN,
};
use crate::types::{Input, InputPair, Snapshot, Tick};
use vstd::prelude::*;
use vstd::slice::{slice_subrange, slice_to_vec};

verus! {

/// Type byte of an input-pair message.
pub const TAG_INPUT_PAIR: u8 = 0x01;

/// Type byte of a snapshot message.
pub const TAG_SNAPSHOT: u8 = 0x02;

/// Type byte of a ping message.
pub const TAG_PING: u8 = 0x03;

/// Messages exchanged between the two peers.
#[derive(Debug, Clone, PartialEq)]
pub enum WireMsg {
    /// One side's input for a tick, in its own slot of the pair.
    InputPair(InputPair),
    /// An encoded snapshot, carried as it is.
    Snapshot(Vec<u8>),
    /// A timestamp in milliseconds; the reply echoes it in the same shape.
    Ping(u32),
}

/// A message as a value: the snapshot payload as a sequence of bytes.
pub enum WireFrame {
    InputPair(InputPair),
    Snapshot(Seq<u8>),
    Ping(u32),
}

impl View for WireMsg {
    type V = WireFrame;

    open spec fn view(&self) -> WireFrame {
        match self {
            WireMsg::InputPair(pair) => WireFrame::InputPair(*pair),
            WireMsg::Snapshot(data) => WireFrame::Snapshot(data@),
            WireMsg::Ping(timestamp) => WireFrame::Ping(*timestamp),
        }
    }
}

impl WireFrame {
    /// The bytes of a message: the type byte, then the payload.
    pub open spec fn bytes(self) -> Seq<u8> {
        match self {
            WireFrame::InputPair(pair) => seq![TAG_INPUT_PAIR] + pair.bytes(),
            WireFrame::Snapshot(data) => seq![TAG_SNAPSHOT] + data,
            WireFrame::Ping(timestamp) => seq![TAG_PING] + u32_le(timestamp),
        }
    }

    /// Number of bytes of a message.
    pub open spec fn size(self) -> nat {
        match self {
            WireFrame::InputPair(_) => 10,
            WireFrame::Snapshot(data) => 1 + data.len(),
            WireFrame::Ping(_) => 5,
        }
    }

    /// The message that `bytes` stand for. A buffer that is empty, or too
    /// short for its type, fails with `UnexpectedEnd`; an unknown type byte
    /// fails with `InvalidData`. A snapshot message carries whatever follows
    /// the type byte, at least one byte.
    pub open spec fn parse(bytes: Seq<u8>) -> Result<WireFrame, SerializationError> {
        if bytes.len() == 0 {
            Err(SerializationError::UnexpectedEnd)
        } else if bytes[0] == TAG_INPUT_PAIR {
            if bytes.len() < 10 {
                Err(SerializationError::UnexpectedEnd)
            } else {
                match InputPair::decode_spec(bytes.subrange(1, bytes.len() as int)) {
                    Ok(pair) => Ok(WireFrame::InputPair(pair)),
                    Err(e) => Err(e),
                }
            }
        } else if bytes[0] == TAG_SNAPSHOT {
            if bytes.len() < 2 {
                Err(SerializationError::UnexpectedEnd)
            } else {
                Ok(WireFrame::Snapshot(bytes.subrange(1, bytes.len() as int)))
            }
        } else if bytes[0] == TAG_PING {
            if bytes.len() < 5 {
                Err(SerializationError::UnexpectedEnd)
            } else {
                Ok(WireFrame::Ping(u32_at(bytes, 1)))
            }
        } else {
            Err(SerializationError::InvalidData)
        }
    }

    /// The text that names the type of a message.
    pub open spec fn kind_name(self) -> Seq<char> {
        match self {
            WireFrame::InputPair(_) => "InputPair"@,
            WireFrame::Snapshot(_) => "Snapshot"@,
            WireFrame::Ping(_) => "Ping"@,
        }
    }

    /// Round trip: parsing the bytes of a message gives the message back.
    /// A snapshot message must carry at least one byte.
    pub proof fn lemma_roundtrip(self)
        requires
            self matches WireFrame::Snapshot(data) ==> data.len() > 0,
        ensures
            self.bytes().len() == self.size(),
            Self::parse(self.bytes()) == Ok::<WireFrame, SerializationError>(self),
    {
        let all = self.bytes();
        match self {
            WireFrame::InputPair(pair) => {
                pair.lemma_roundtrip();
                assert(all.subrange(1, all.len() as int) =~= pair.bytes());
            },
            WireFrame::Snapshot(data) => {
                assert(all.subrange(1, all.len() as int) =~= data);
            },
            WireFrame::Ping(timestamp) => {
                lemma_widths(timestamp, 0, arbitrary(), arbitrary(), arbitrary());
                assert(all.subrange(1, 5) =~= u32_le(timestamp));
                lemma_u32_roundtrip(all, 1, timestamp);
            },
        }
    }

    /// Robustness: parsing fails exactly on an empty buffer, an unknown type
    /// byte, or a buffer too short for its type; never with
    /// `BufferTooSmall`.
    pub proof fn lemma_parse_total(bytes: Seq<u8>)
        ensures
            Self::parse(bytes) == Err::<WireFrame, SerializationError>(
                SerializationError::InvalidData,
            ) <==> bytes.len() > 0 && bytes[0] != TAG_INPUT_PAIR && bytes[0] != TAG_SNAPSHOT
                && bytes[0] != TAG_PING,
            Self::parse(bytes) == Err::<WireFrame, SerializationError>(
                SerializationError::UnexpectedEnd,
            ) <==> bytes.len() == 0 || (bytes[0] == TAG_INPUT_PAIR && bytes.len() < 10) || (bytes[0]
                == TAG_SNAPSHOT && bytes.len() < 2) || (bytes[0] == TAG_PING && bytes.len() < 5),
            Self::parse(bytes) is Err ==> Self::parse(bytes)->Err_0
                != SerializationError::BufferTooSmall,
    {
    }
}

impl WireMsg {
    /// Encodes the message with its type byte in front.
    pub fn encode(&self) -> (bytes: Vec<u8>)
        ensures
            bytes@ == self@.bytes(),
    {
        match self {
            WireMsg::InputPair(pair) => {
                let mut bytes: Vec<u8> = Vec::with_capacity(10);
                bytes.push(0x01);
                let payload = pair.encode();
                let mut i: usize = 0;
                while i < 9
                    invariant
                        i <= 9,
                        payload@ == pair.bytes(),
                        payload@.len() == 9,
                        bytes@ == seq![TAG_INPUT_PAIR] + payload@.subrange(0, i as int),
                    decreases 9 - i,
                {
                    bytes.push(payload[i]);
                    i += 1;
                }
                assert(payload@.subrange(0, 9) =~= payload@);
                bytes
            },
            WireMsg::Snapshot(data) => {
                let mut bytes: Vec<u8> = Vec::new();
                bytes.push(0x02);
                let mut i: usize = 0;
                while i < data.len()
                    invariant
                        i <= data.len(),
                        bytes@ == seq![TAG_SNAPSHOT] + data@.subrange(0, i as int),
                    decreases data.len() - i,
                {
                    bytes.push(data[i]);
                    i += 1;
                }
                assert(data@.subrange(0, data.len() as int) =~= data@);
                bytes
            },
            WireMsg::Ping(timestamp) => {
                let mut bytes: Vec<u8> = Vec::with_capacity(5);
                bytes.push(0x03);
                push_u32(&mut bytes, *timestamp);
                bytes
            },
        }
    }

    /// Decodes a message. Fails with `UnexpectedEnd` on an empty buffer or
    /// one too short for its type, and with `InvalidData` on an unknown
    /// type byte.
    pub fn decode(bytes: &[u8]) -> (r: Result<WireMsg, SerializationError>)
        ensures
            match r {
                Ok(msg) => WireFrame::parse(bytes@) == Ok::<WireFrame, SerializationError>(msg@),
                Err(e) => WireFrame::parse(bytes@) == Err::<WireFrame, SerializationError>(e),
            },
            r == Err::<WireMsg, SerializationError>(SerializationError::InvalidData) <==> bytes@.len()
                > 0 && bytes@[0] != TAG_INPUT_PAIR && bytes@[0] != TAG_SNAPSHOT && bytes@[0]
                != TAG_PING,
            r == Err::<WireMsg, SerializationError>(SerializationError::UnexpectedEnd)
                <==> bytes@.len() == 0 || (bytes@[0] == TAG_INPUT_PAIR && bytes@.len() < 10) || (
            bytes@[0] == TAG_SNAPSHOT && bytes@.len() < 2) || (bytes@[0] == TAG_PING && bytes@.len()
                < 5),
    {
        proof {
            WireFrame::lemma_parse_total(bytes@);
        }
        let len = bytes.len();
        if len == 0 {
            return Err(SerializationError::UnexpectedEnd);
        }
        match bytes[0] {
            0x01 => {
                if len < 10 {
                    return Err(SerializationError::UnexpectedEnd);
                }
                match InputPair::decode(slice_subrange(bytes, 1, len)) {
                    Ok(pair) => Ok(WireMsg::InputPair(pair)),
                    Err(e) => Err(e),
                }
            },
            0x02 => {
                if len < 2 {
                    return Err(SerializationError::UnexpectedEnd);
                }
                let snapshot_data = slice_to_vec(slice_subrange(bytes, 1, len));
                Ok(WireMsg::Snapshot(snapshot_data))
            },
            0x03 => {
                if len < 5 {
                    return Err(SerializationError::UnexpectedEnd);
                }
                let timestamp = read_u32(bytes, 1);
                Ok(WireMsg::Ping(timestamp))
            },
            _ => Err(SerializationError::InvalidData),
        }
    }

    /// The name of the message type, for diagnostics.
    pub fn message_type(&self) -> (name: &'static str)
        ensures
            name@ == self@.kind_name(),
    {
        match self {
            WireMsg::InputPair(_) => "InputPair",
            WireMsg::Snapshot(_) => "Snapshot",
            WireMsg::Ping(_) => "Ping",
        }
    }

    /// The number of bytes that `encode` produces. The count must fit in
    /// `usize`.
    pub fn encoded_size(&self) -> (n: usize)
        requires
            self@.size() <= usize::MAX,
        ensures
            n == self@.size(),
    {
        match self {
            WireMsg::InputPair(_) => 10,
            WireMsg::Snapshot(data) => 1 + data.len(),
            WireMsg::Ping(_) => 5,
        }
    }

    /// An input-pair message.
    pub fn input_pair(tick: Tick, a: Input, b: Input) -> (msg: WireMsg)
        ensures
            msg@ == WireFrame::InputPair(InputPair { tick, a, b }),
    {
        WireMsg::InputPair(InputPair::new(tick, a, b))
    }

    /// A snapshot message that carries the encoding of `snapshot`.
    pub fn snapshot(snapshot: &Snapshot) -> (msg: WireMsg)
        ensures
            msg@ == WireFrame::Snapshot(snapshot.bytes()),
    {
        WireMsg::Snapshot(snapshot.encode())
    }

    /// A ping message with the given timestamp in milliseconds.
    pub fn ping(timestamp_ms: u32) -> (msg: WireMsg)
        ensures
            msg@ == WireFrame::Ping(timestamp_ms),
    {
        WireMsg::Ping(timestamp_ms)
    }
}

} // verus!
