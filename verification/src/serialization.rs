//! Compact binary encoding of inputs and snapshots: fixed width,
//! little-endian, no padding.

use crate::types::{Ball, Input, InputPair, Paddle, Side, Snapshot, Status, Vec2};
use vstd::prelude::*;

verus! {

/// Why a buffer could not be encoded into or decoded.
#[derive(Debug, Copy, Clone, PartialEq, Eq)]
pub enum SerializationError {
    /// The target buffer is too small for the encoding.
    BufferTooSmall,
    /// A discriminant or side byte is outside its enumeration.
    InvalidData,
    /// The buffer is shorter than the fixed format requires.
    UnexpectedEnd,
}

/// Encoded width of an `Input`.
pub const INPUT_LEN: usize = 2;

/// Encoded width of an `InputPair`.
pub const INPUT_PAIR_LEN: usize = 9;

/// Encoded width of a `Snapshot`.
pub const SNAPSHOT_LEN: usize = 49;

/// The bit pattern of a signed byte, read as unsigned.
pub open spec fn i8_bits(x: i8) -> u8 {
    if x < 0 {
        (x + 256) as u8
    } else {
        x as u8
    }
}

/// The signed byte with bit pattern `b`.
pub open spec fn i8_from_bits(b: u8) -> i8 {
    if b >= 128 {
        (b - 256) as i8
    } else {
        b as i8
    }
}

/// The bit pattern of a signed 32-bit value, read as unsigned.
pub open spec fn i32_bits(x: i32) -> u32 {
    if x < 0 {
        (x + 0x1_0000_0000) as u32
    } else {
        x as u32
    }
}

/// The signed 32-bit value with bit pattern `u`.
pub open spec fn i32_from_bits(u: u32) -> i32 {
    if u >= 0x8000_0000 {
        (u - 0x1_0000_0000) as i32
    } else {
        u as i32
    }
}

/// Little-endian bytes of a 16-bit value.
pub open spec fn u16_le(x: u16) -> Seq<u8> {
    seq![(x % 256) as u8, (x / 256) as u8]
}

/// Little-endian bytes of a 32-bit value.
#[verifier::opaque]
pub open spec fn u32_le(x: u32) -> Seq<u8> {
    seq![
        (x % 256) as u8,
        ((x / 0x100) % 256) as u8,
        ((x / 0x1_0000) % 256) as u8,
        (x / 0x100_0000) as u8,
    ]
}

/// Little-endian bytes of a 64-bit value.
#[verifier::opaque]
pub open spec fn u64_le(x: u64) -> Seq<u8> {
    u32_le((x % 0x1_0000_0000) as u32) + u32_le((x / 0x1_0000_0000) as u32)
}

/// The 16-bit value whose little-endian bytes start at `at`.
pub open spec fn u16_at(bytes: Seq<u8>, at: int) -> u16 {
    (bytes[at] + bytes[at + 1] * 0x100) as u16
}

/// The 32-bit value whose little-endian bytes start at `at`.
#[verifier::opaque]
pub open spec fn u32_at(bytes: Seq<u8>, at: int) -> u32 {
    (bytes[at] + bytes[at + 1] * 0x100 + bytes[at + 2] * 0x1_0000 + bytes[at + 3] * 0x100_0000) as u32
}

/// The 64-bit value whose little-endian bytes start at `at`.
#[verifier::opaque]
pub open spec fn u64_at(bytes: Seq<u8>, at: int) -> u64 {
    (u32_at(bytes, at) + u32_at(bytes, at + 4) * 0x1_0000_0000) as u64
}

/// The signed 32-bit value whose little-endian bytes start at `at`.
pub open spec fn i32_at(bytes: Seq<u8>, at: int) -> i32 {
    i32_from_bits(u32_at(bytes, at))
}

/// Byte that stands for a side: 0 for left, 1 for right.
pub open spec fn side_byte(side: Side) -> u8 {
    match side {
        Side::Left => 0,
        Side::Right => 1,
    }
}

/// The side a byte stands for, if any.
pub open spec fn side_of_byte(b: u8) -> Option<Side> {
    if b == 0 {
        Some(Side::Left)
    } else if b == 1 {
        Some(Side::Right)
    } else {
        None
    }
}

/// The three status bytes: a discriminant and two payload bytes. A `Scored`
/// countdown keeps only its low byte.
#[verifier::opaque]
pub open spec fn status_bytes(status: Status) -> Seq<u8> {
    match status {
        Status::Lobby => seq![0u8, 0u8, 0u8],
        Status::Countdown(ticks) => seq![1u8] + u16_le(ticks),
        Status::Playing => seq![2u8, 0u8, 0u8],
        Status::Scored(side, ticks) => seq![3u8, side_byte(side), (ticks % 256) as u8],
        Status::GameOver(side) => seq![4u8, side_byte(side), 0u8],
    }
}

/// The status that three bytes starting at `at` stand for.
#[verifier::opaque]
pub open spec fn status_at(bytes: Seq<u8>, at: int) -> Result<Status, SerializationError> {
    let tag = bytes[at];
    if tag == 0 {
        Ok(Status::Lobby)
    } else if tag == 1 {
        Ok(Status::Countdown(u16_at(bytes, at + 1)))
    } else if tag == 2 {
        Ok(Status::Playing)
    } else if tag == 3 {
        match side_of_byte(bytes[at + 1]) {
            Some(side) => Ok(Status::Scored(side, bytes[at + 2] as u16)),
            None => Err(SerializationError::InvalidData),
        }
    } else if tag == 4 {
        match side_of_byte(bytes[at + 1]) {
            Some(side) => Ok(Status::GameOver(side)),
            None => Err(SerializationError::InvalidData),
        }
    } else {
        Err(SerializationError::InvalidData)
    }
}

/// A status whose encoding loses nothing: a `Scored` countdown must fit in
/// one byte.
pub open spec fn status_encodable(status: Status) -> bool {
    match status {
        Status::Scored(_, ticks) => ticks <= 255,
        _ => true,
    }
}

/// The eight bytes of a paddle: position, then velocity.
#[verifier::opaque]
pub open spec fn paddle_bytes(p: Paddle) -> Seq<u8> {
    u32_le(i32_bits(p.y)) + u32_le(i32_bits(p.vy))
}

/// The paddle whose bytes start at `at`.
#[verifier::opaque]
pub open spec fn paddle_at(bytes: Seq<u8>, at: int) -> Paddle {
    Paddle { y: i32_at(bytes, at), vy: i32_at(bytes, at + 4) }
}

/// The sixteen bytes of a ball: position x, y, then velocity x, y.
#[verifier::opaque]
pub open spec fn ball_bytes(b: Ball) -> Seq<u8> {
    u32_le(i32_bits(b.pos.x)) + u32_le(i32_bits(b.pos.y)) + u32_le(i32_bits(b.vel.x)) + u32_le(
        i32_bits(b.vel.y),
    )
}

/// The ball whose bytes start at `at`.
#[verifier::opaque]
pub open spec fn ball_at(bytes: Seq<u8>, at: int) -> Ball {
    Ball {
        pos: Vec2 { x: i32_at(bytes, at), y: i32_at(bytes, at + 4) },
        vel: Vec2 { x: i32_at(bytes, at + 8), y: i32_at(bytes, at + 12) },
    }
}

impl Input {
    /// The two bytes of an input: the axis bit pattern, then the buttons.
    pub open spec fn bytes(self) -> Seq<u8> {
        seq![i8_bits(self.axis_y), self.buttons]
    }

    /// The input whose bytes start at `at`.
    pub open spec fn at(bytes: Seq<u8>, at: int) -> Input {
        Input { axis_y: i8_from_bits(bytes[at]), buttons: bytes[at + 1] }
    }

    /// What `decode` returns on `bytes`.
    pub open spec fn decode_spec(bytes: Seq<u8>) -> Result<Input, SerializationError> {
        if bytes.len() < INPUT_LEN {
            Err(SerializationError::UnexpectedEnd)
        } else {
            Ok(Input::at(bytes, 0))
        }
    }
}

impl InputPair {
    /// The nine bytes of an input pair: tick, input a, input b, one zero.
    pub open spec fn bytes(self) -> Seq<u8> {
        u32_le(self.tick) + self.a.bytes() + self.b.bytes() + seq![0u8]
    }

    /// What `decode` returns on `bytes`.
    pub open spec fn decode_spec(bytes: Seq<u8>) -> Result<InputPair, SerializationError> {
        if bytes.len() < INPUT_PAIR_LEN {
            Err(SerializationError::UnexpectedEnd)
        } else {
            Ok(
                InputPair {
                    tick: u32_at(bytes, 0),
                    a: Input::at(bytes, 4),
                    b: Input::at(bytes, 6),
                },
            )
        }
    }
}

impl Snapshot {
    /// The 49 bytes of a snapshot: tick (4), status (3), two paddles (16),
    /// ball (16), score (2), generator state (8).
    pub open spec fn bytes(self) -> Seq<u8> {
        u32_le(self.tick) + status_bytes(self.status) + paddle_bytes(self.paddles[0])
            + paddle_bytes(self.paddles[1]) + ball_bytes(self.ball) + seq![
            self.score[0],
            self.score[1],
        ] + u64_le(self.rng)
    }

    /// A snapshot whose encoding loses nothing.
    pub open spec fn encodable(self) -> bool {
        status_encodable(self.status)
    }

    /// What `decode` returns on `bytes`.
    pub open spec fn decode_spec(bytes: Seq<u8>) -> Result<Snapshot, SerializationError> {
        if bytes.len() < SNAPSHOT_LEN {
            Err(SerializationError::UnexpectedEnd)
        } else {
            match status_at(bytes, 4) {
                Ok(status) => Ok(
                    Snapshot {
                        tick: u32_at(bytes, 0),
                        status,
                        paddles: [paddle_at(bytes, 7), paddle_at(bytes, 15)],
                        ball: ball_at(bytes, 23),
                        score: [bytes[39], bytes[40]],
                        rng: u64_at(bytes, 41),
                    },
                ),
                Err(e) => Err(e),
            }
        }
    }
}

/// The unsigned byte with the bit pattern of `x`.
fn i8_to_bits(x: i8) -> (b: u8)
    ensures
        b == i8_bits(x),
{
    assert((x as u8) as int == (if x < 0 { x + 256 } else { x as int })) by (bit_vector);
    x as u8
}

/// The signed byte with the bit pattern of `b`.
fn bits_to_i8(b: u8) -> (x: i8)
    ensures
        x == i8_from_bits(b),
{
    assert((b as i8) as int == (if b >= 128 { b - 256 } else { b as int })) by (bit_vector);
    b as i8
}

/// The unsigned value with the bit pattern of `x`.
fn i32_to_bits(x: i32) -> (u: u32)
    ensures
        u == i32_bits(x),
{
    assert((x as u32) as int == (if x < 0 { x + 0x1_0000_0000 } else { x as int }))
        by (bit_vector);
    x as u32
}

/// The signed value with the bit pattern of `u`.
fn bits_to_i32(u: u32) -> (x: i32)
    ensures
        x == i32_from_bits(u),
{
    assert((u as i32) as int == (if u >= 0x8000_0000 { u - 0x1_0000_0000 } else { u as int }))
        by (bit_vector);
    u as i32
}

/// Appends the little-endian bytes of `x`.
fn push_u16(out: &mut Vec<u8>, x: u16)
    ensures
        final(out)@ == old(out)@ + u16_le(x),
{
    out.push((x % 256) as u8);
    out.push((x / 256) as u8);
}

/// Appends the little-endian bytes of `x`.
pub(crate) fn push_u32(out: &mut Vec<u8>, x: u32)
    ensures
        final(out)@ == old(out)@ + u32_le(x),
{
    proof {
        reveal(u32_le);
    }
    out.push((x % 256) as u8);
    out.push(((x / 0x100) % 256) as u8);
    out.push(((x / 0x1_0000) % 256) as u8);
    out.push((x / 0x100_0000) as u8);
}

/// Appends the little-endian bytes of `x`.
fn push_u64(out: &mut Vec<u8>, x: u64)
    ensures
        final(out)@ == old(out)@ + u64_le(x),
{
    proof {
        reveal(u64_le);
    }
    push_u32(out, (x % 0x1_0000_0000) as u32);
    push_u32(out, (x / 0x1_0000_0000) as u32);
}

/// Reads the little-endian 16-bit value at `at`.
fn read_u16(bytes: &[u8], at: usize) -> (x: u16)
    requires
        at + 2 <= bytes@.len(),
    ensures
        x == u16_at(bytes@, at as int),
{
    (bytes[at] as u16) + (bytes[at + 1] as u16) * 0x100
}

/// Reads the little-endian 32-bit value at `at`.
pub(crate) fn read_u32(bytes: &[u8], at: usize) -> (x: u32)
    requires
        at + 4 <= bytes@.len(),
    ensures
        x == u32_at(bytes@, at as int),
{
    proof {
        reveal(u32_at);
    }
    (bytes[at] as u32) + (bytes[at + 1] as u32) * 0x100 + (bytes[at + 2] as u32) * 0x1_0000 + (
    bytes[at + 3] as u32) * 0x100_0000
}

/// Reads the little-endian 64-bit value at `at`.
fn read_u64(bytes: &[u8], at: usize) -> (x: u64)
    requires
        at + 8 <= bytes@.len(),
    ensures
        x == u64_at(bytes@, at as int),
{
    proof {
        reveal(u64_at);
    }
    let len = bytes.len();
    assert(at + 8 <= len);
    let low = read_u32(bytes, at);
    let high = read_u32(bytes, at + 4);
    (low as u64) + (high as u64) * 0x1_0000_0000
}

/// Reads the signed little-endian 32-bit value at `at`.
fn read_i32(bytes: &[u8], at: usize) -> (x: i32)
    requires
        at + 4 <= bytes@.len(),
    ensures
        x == i32_at(bytes@, at as int),
{
    bits_to_i32(read_u32(bytes, at))
}

/// Reads the side byte at `at`.
fn read_side(bytes: &[u8], at: usize) -> (r: Option<Side>)
    requires
        at < bytes@.len(),
    ensures
        r == side_of_byte(bytes@[at as int]),
{
    match bytes[at] {
        0 => Some(Side::Left),
        1 => Some(Side::Right),
        _ => None,
    }
}

/// Reads the three status bytes at `at`.
fn read_status(bytes: &[u8], at: usize) -> (r: Result<Status, SerializationError>)
    requires
        at + 3 <= bytes@.len(),
    ensures
        r == status_at(bytes@, at as int),
{
    proof {
        reveal(status_at);
    }
    match bytes[at] {
        0 => Ok(Status::Lobby),
        1 => Ok(Status::Countdown(read_u16(bytes, at + 1))),
        2 => Ok(Status::Playing),
        3 => match read_side(bytes, at + 1) {
            Some(side) => Ok(Status::Scored(side, bytes[at + 2] as u16)),
            None => Err(SerializationError::InvalidData),
        },
        4 => match read_side(bytes, at + 1) {
            Some(side) => Ok(Status::GameOver(side)),
            None => Err(SerializationError::InvalidData),
        },
        _ => Err(SerializationError::InvalidData),
    }
}

/// Appends the three status bytes.
fn push_status(out: &mut Vec<u8>, status: Status)
    ensures
        final(out)@ == old(out)@ + status_bytes(status),
{
    proof {
        reveal(status_bytes);
    }
    match status {
        Status::Lobby => {
            out.push(0);
            out.push(0);
            out.push(0);
        },
        Status::Countdown(ticks) => {
            out.push(1);
            push_u16(out, ticks);
        },
        Status::Playing => {
            out.push(2);
            out.push(0);
            out.push(0);
        },
        Status::Scored(side, ticks) => {
            out.push(3);
            out.push(
                match side {
                    Side::Left => 0,
                    Side::Right => 1,
                },
            );
            out.push((ticks % 256) as u8);
        },
        Status::GameOver(side) => {
            out.push(4);
            out.push(
                match side {
                    Side::Left => 0,
                    Side::Right => 1,
                },
            );
            out.push(0);
        },
    }
}

impl Input {
    /// Encodes to 2 bytes: the axis bit pattern, then the buttons.
    pub fn encode(&self) -> (r: [u8; 2])
        ensures
            r@ == self.bytes(),
    {
        [i8_to_bits(self.axis_y), self.buttons]
    }

    /// Decodes from the first 2 bytes of `bytes`; fails with `UnexpectedEnd`
    /// exactly when there are fewer.
    pub fn decode(bytes: &[u8]) -> (r: Result<Input, SerializationError>)
        ensures
            r == Input::decode_spec(bytes@),
            r is Err <==> bytes@.len() < INPUT_LEN,
            r is Err ==> r->Err_0 == SerializationError::UnexpectedEnd,
    {
        if bytes.len() < 2 {
            return Err(SerializationError::UnexpectedEnd);
        }
        Ok(Input { axis_y: bits_to_i8(bytes[0]), buttons: bytes[1] })
    }
}

impl InputPair {
    /// Encodes to 9 bytes: tick, input a, input b and one reserved zero.
    pub fn encode(&self) -> (r: [u8; 9])
        ensures
            r@ == self.bytes(),
    {
        proof {
            reveal(u32_le);
        }
        let tick = self.tick;
        let mut bytes = [0u8; 9];
        bytes[0] = (tick % 256) as u8;
        bytes[1] = ((tick / 0x100) % 256) as u8;
        bytes[2] = ((tick / 0x1_0000) % 256) as u8;
        bytes[3] = (tick / 0x100_0000) as u8;
        bytes[4] = i8_to_bits(self.a.axis_y);
        bytes[5] = self.a.buttons;
        bytes[6] = i8_to_bits(self.b.axis_y);
        bytes[7] = self.b.buttons;
        bytes[8] = 0;
        bytes
    }

    /// Decodes from the first 9 bytes of `bytes`; fails with `UnexpectedEnd`
    /// exactly when there are fewer.
    pub fn decode(bytes: &[u8]) -> (r: Result<InputPair, SerializationError>)
        ensures
            r == InputPair::decode_spec(bytes@),
            r is Err <==> bytes@.len() < INPUT_PAIR_LEN,
            r is Err ==> r->Err_0 == SerializationError::UnexpectedEnd,
    {
        if bytes.len() < 9 {
            return Err(SerializationError::UnexpectedEnd);
        }
        let tick = read_u32(bytes, 0);
        let a = Input { axis_y: bits_to_i8(bytes[4]), buttons: bytes[5] };
        let b = Input { axis_y: bits_to_i8(bytes[6]), buttons: bytes[7] };
        Ok(InputPair { tick, a, b })
    }
}

impl Snapshot {
    /// Encodes to 49 bytes.
    pub fn encode(&self) -> (r: Vec<u8>)
        ensures
            r@ == self.bytes(),
            r@.len() == SNAPSHOT_LEN,
    {
        proof {
            reveal(paddle_bytes);
            reveal(ball_bytes);
            self.lemma_decode_of_bytes();
        }
        let mut bytes: Vec<u8> = Vec::with_capacity(49);
        push_u32(&mut bytes, self.tick);
        push_status(&mut bytes, self.status);
        push_u32(&mut bytes, i32_to_bits(self.paddles[0].y));
        push_u32(&mut bytes, i32_to_bits(self.paddles[0].vy));
        push_u32(&mut bytes, i32_to_bits(self.paddles[1].y));
        push_u32(&mut bytes, i32_to_bits(self.paddles[1].vy));
        push_u32(&mut bytes, i32_to_bits(self.ball.pos.x));
        push_u32(&mut bytes, i32_to_bits(self.ball.pos.y));
        push_u32(&mut bytes, i32_to_bits(self.ball.vel.x));
        push_u32(&mut bytes, i32_to_bits(self.ball.vel.y));
        bytes.push(self.score[0]);
        bytes.push(self.score[1]);
        push_u64(&mut bytes, self.rng);
        bytes
    }

    /// Decodes from the first 49 bytes of `bytes`. Fails with
    /// `UnexpectedEnd` exactly when there are fewer, and otherwise with
    /// `InvalidData` exactly when the status discriminant, or the side byte
    /// of a `Scored` or `GameOver` status, is outside its enumeration.
    pub fn decode(bytes: &[u8]) -> (r: Result<Snapshot, SerializationError>)
        ensures
            r == Snapshot::decode_spec(bytes@),
            bytes@.len() < SNAPSHOT_LEN <==> r == Err::<Snapshot, SerializationError>(
                SerializationError::UnexpectedEnd,
            ),
            bytes@.len() >= SNAPSHOT_LEN ==> (r == Err::<Snapshot, SerializationError>(
                SerializationError::InvalidData,
            ) <==> bytes@[4] > 4 || ((bytes@[4] == 3 || bytes@[4] == 4) && bytes@[5] > 1)),
    {
        proof {
            Snapshot::lemma_decode_total(bytes@);
        }
        if bytes.len() < 49 {
            return Err(SerializationError::UnexpectedEnd);
        }
        let tick = read_u32(bytes, 0);
        let status = match read_status(bytes, 4) {
            Ok(status) => status,
            Err(e) => {
                return Err(e);
            },
        };
        proof {
            reveal(paddle_at);
            reveal(ball_at);
        }
        let left = Paddle { y: read_i32(bytes, 7), vy: read_i32(bytes, 11) };
        let right = Paddle { y: read_i32(bytes, 15), vy: read_i32(bytes, 19) };
        let ball = Ball {
            pos: Vec2 { x: read_i32(bytes, 23), y: read_i32(bytes, 27) },
            vel: Vec2 { x: read_i32(bytes, 31), y: read_i32(bytes, 35) },
        };
        let score = [bytes[39], bytes[40]];
        let rng = read_u64(bytes, 41);
        Ok(Snapshot { tick, status, paddles: [left, right], ball, score, rng })
    }
}

/// The status that comes back from the wire: a `Scored` countdown is cut to
/// its low byte, every other status is unchanged.
pub open spec fn status_after_wire(status: Status) -> Status {
    match status {
        Status::Scored(side, ticks) => Status::Scored(side, (ticks % 256) as u16),
        other => other,
    }
}

/// Reading back the bytes of a 32-bit value gives the value.
pub proof fn lemma_u32_roundtrip(all: Seq<u8>, at: int, x: u32)
    requires
        0 <= at,
        at + 4 <= all.len(),
        all.subrange(at, at + 4) == u32_le(x),
    ensures
        u32_at(all, at) == x,
{
    reveal(u32_le);
    reveal(u32_at);
    let part = all.subrange(at, at + 4);
    assert(all[at] == part[0]);
    assert(all[at + 1] == part[1]);
    assert(all[at + 2] == part[2]);
    assert(all[at + 3] == part[3]);
}

/// The little-endian forms have their fixed widths.
pub proof fn lemma_widths(x: u32, y: u64, status: Status, p: Paddle, b: Ball)
    ensures
        u32_le(x).len() == 4,
        u64_le(y).len() == 8,
        status_bytes(status).len() == 3,
        paddle_bytes(p).len() == 8,
        ball_bytes(b).len() == 16,
{
    reveal(u32_le);
    reveal(u64_le);
    reveal(status_bytes);
    reveal(paddle_bytes);
    reveal(ball_bytes);
}

/// Reading back the bytes of a 64-bit value gives the value.
pub proof fn lemma_u64_roundtrip(all: Seq<u8>, at: int, x: u64)
    requires
        0 <= at,
        at + 8 <= all.len(),
        all.subrange(at, at + 8) == u64_le(x),
    ensures
        u64_at(all, at) == x,
{
    reveal(u64_le);
    reveal(u64_at);
    let low = (x % 0x1_0000_0000) as u32;
    let high = (x / 0x1_0000_0000) as u32;
    lemma_widths(low, 0, Status::Lobby, Paddle { y: 0, vy: 0 }, arbitrary());
    lemma_widths(high, 0, Status::Lobby, Paddle { y: 0, vy: 0 }, arbitrary());
    let part = all.subrange(at, at + 8);
    assert(all.subrange(at, at + 4) =~= part.subrange(0, 4));
    assert(all.subrange(at + 4, at + 8) =~= part.subrange(4, 8));
    assert(part.subrange(0, 4) =~= u32_le(low));
    assert(part.subrange(4, 8) =~= u32_le(high));
    lemma_u32_roundtrip(all, at, low);
    lemma_u32_roundtrip(all, at + 4, high);
}

/// A signed value comes back from its bit pattern.
pub proof fn lemma_bits_roundtrip(x: i32, b: i8)
    ensures
        i32_from_bits(i32_bits(x)) == x,
        i8_from_bits(i8_bits(b)) == b,
{
}

/// Reading back the bytes of a status gives the status as it comes back from
/// the wire.
pub proof fn lemma_status_roundtrip(all: Seq<u8>, at: int, status: Status)
    requires
        0 <= at,
        at + 3 <= all.len(),
        all.subrange(at, at + 3) == status_bytes(status),
    ensures
        status_at(all, at) == Ok::<Status, SerializationError>(status_after_wire(status)),
{
    reveal(status_bytes);
    reveal(status_at);
    let part = all.subrange(at, at + 3);
    assert(all[at] == part[0]);
    assert(all[at + 1] == part[1]);
    assert(all[at + 2] == part[2]);
}

/// Reading back the bytes of a paddle gives the paddle.
pub proof fn lemma_paddle_roundtrip(all: Seq<u8>, at: int, p: Paddle)
    requires
        0 <= at,
        at + 8 <= all.len(),
        all.subrange(at, at + 8) == paddle_bytes(p),
    ensures
        paddle_at(all, at) == p,
{
    reveal(paddle_bytes);
    reveal(paddle_at);
    lemma_widths(i32_bits(p.y), 0, Status::Lobby, p, arbitrary());
    lemma_widths(i32_bits(p.vy), 0, Status::Lobby, p, arbitrary());
    let part = all.subrange(at, at + 8);
    assert(all.subrange(at, at + 4) =~= part.subrange(0, 4));
    assert(all.subrange(at + 4, at + 8) =~= part.subrange(4, 8));
    assert(part.subrange(0, 4) =~= u32_le(i32_bits(p.y)));
    assert(part.subrange(4, 8) =~= u32_le(i32_bits(p.vy)));
    lemma_u32_roundtrip(all, at, i32_bits(p.y));
    lemma_u32_roundtrip(all, at + 4, i32_bits(p.vy));
}

/// Reading back the bytes of a ball gives the ball.
pub proof fn lemma_ball_roundtrip(all: Seq<u8>, at: int, b: Ball)
    requires
        0 <= at,
        at + 16 <= all.len(),
        all.subrange(at, at + 16) == ball_bytes(b),
    ensures
        ball_at(all, at) == b,
{
    reveal(ball_bytes);
    reveal(ball_at);
    let px = u32_le(i32_bits(b.pos.x));
    let py = u32_le(i32_bits(b.pos.y));
    let vx = u32_le(i32_bits(b.vel.x));
    let vy = u32_le(i32_bits(b.vel.y));
    lemma_widths(i32_bits(b.pos.x), 0, Status::Lobby, arbitrary(), b);
    lemma_widths(i32_bits(b.pos.y), 0, Status::Lobby, arbitrary(), b);
    lemma_widths(i32_bits(b.vel.x), 0, Status::Lobby, arbitrary(), b);
    lemma_widths(i32_bits(b.vel.y), 0, Status::Lobby, arbitrary(), b);
    let part = all.subrange(at, at + 16);
    assert(all.subrange(at, at + 4) =~= part.subrange(0, 4));
    assert(all.subrange(at + 4, at + 8) =~= part.subrange(4, 8));
    assert(all.subrange(at + 8, at + 12) =~= part.subrange(8, 12));
    assert(all.subrange(at + 12, at + 16) =~= part.subrange(12, 16));
    assert(part.subrange(0, 4) =~= px);
    assert(part.subrange(4, 8) =~= py);
    assert(part.subrange(8, 12) =~= vx);
    assert(part.subrange(12, 16) =~= vy);
    lemma_u32_roundtrip(all, at, i32_bits(b.pos.x));
    lemma_u32_roundtrip(all, at + 4, i32_bits(b.pos.y));
    lemma_u32_roundtrip(all, at + 8, i32_bits(b.vel.x));
    lemma_u32_roundtrip(all, at + 12, i32_bits(b.vel.y));
}

/// Where the seven fields of a snapshot lie in its 49 bytes.
proof fn lemma_snapshot_layout(
    all: Seq<u8>,
    t: Seq<u8>,
    st: Seq<u8>,
    p0: Seq<u8>,
    p1: Seq<u8>,
    bl: Seq<u8>,
    sc: Seq<u8>,
    rg: Seq<u8>,
)
    requires
        all == t + st + p0 + p1 + bl + sc + rg,
        t.len() == 4,
        st.len() == 3,
        p0.len() == 8,
        p1.len() == 8,
        bl.len() == 16,
        sc.len() == 2,
        rg.len() == 8,
    ensures
        all.len() == 49,
        all.subrange(0, 4) == t,
        all.subrange(4, 7) == st,
        all.subrange(7, 15) == p0,
        all.subrange(15, 23) == p1,
        all.subrange(23, 39) == bl,
        all[39] == sc[0],
        all[40] == sc[1],
        all.subrange(41, 49) == rg,
{
    assert(all.subrange(0, 4) =~= t);
    assert(all.subrange(4, 7) =~= st);
    assert(all.subrange(7, 15) =~= p0);
    assert(all.subrange(15, 23) =~= p1);
    assert(all.subrange(23, 39) =~= bl);
    assert(all.subrange(41, 49) =~= rg);
}

impl Input {
    /// Round trip: decoding the encoding of any input gives the input back.
    pub proof fn lemma_roundtrip(self)
        ensures
            self.bytes().len() == INPUT_LEN,
            Input::decode_spec(self.bytes()) == Ok::<Input, SerializationError>(self),
    {
        lemma_bits_roundtrip(0, self.axis_y);
    }

    /// Robustness: every buffer shorter than the format fails with
    /// `UnexpectedEnd`, and every other buffer decodes.
    pub proof fn lemma_decode_total(bytes: Seq<u8>)
        ensures
            bytes.len() < INPUT_LEN <==> Input::decode_spec(bytes) == Err::<
                Input,
                SerializationError,
            >(SerializationError::UnexpectedEnd),
            bytes.len() >= INPUT_LEN <==> Input::decode_spec(bytes) is Ok,
    {
    }
}

impl InputPair {
    /// Round trip: decoding the encoding of any input pair gives the pair
    /// back.
    pub proof fn lemma_roundtrip(self)
        ensures
            self.bytes().len() == INPUT_PAIR_LEN,
            InputPair::decode_spec(self.bytes()) == Ok::<InputPair, SerializationError>(self),
    {
        let all = self.bytes();
        lemma_widths(self.tick, 0, Status::Lobby, arbitrary(), arbitrary());
        assert(all.subrange(0, 4) =~= u32_le(self.tick));
        lemma_u32_roundtrip(all, 0, self.tick);
        lemma_bits_roundtrip(0, self.a.axis_y);
        lemma_bits_roundtrip(0, self.b.axis_y);
        assert(all[4] == self.a.bytes()[0]);
        assert(all[5] == self.a.bytes()[1]);
        assert(all[6] == self.b.bytes()[0]);
        assert(all[7] == self.b.bytes()[1]);
    }

    /// Robustness: every buffer shorter than the format fails with
    /// `UnexpectedEnd`, and every other buffer decodes.
    pub proof fn lemma_decode_total(bytes: Seq<u8>)
        ensures
            bytes.len() < INPUT_PAIR_LEN <==> InputPair::decode_spec(bytes) == Err::<
                InputPair,
                SerializationError,
            >(SerializationError::UnexpectedEnd),
            bytes.len() >= INPUT_PAIR_LEN <==> InputPair::decode_spec(bytes) is Ok,
    {
    }
}

impl Snapshot {
    /// The snapshot as it comes back from the wire.
    pub open spec fn after_wire(self) -> Snapshot {
        Snapshot { status: status_after_wire(self.status), ..self }
    }

    /// Decoding the encoding of any snapshot gives back the snapshot with
    /// its `Scored` countdown cut to one byte.
    pub proof fn lemma_decode_of_bytes(self)
        ensures
            self.bytes().len() == SNAPSHOT_LEN,
            Snapshot::decode_spec(self.bytes()) == Ok::<Snapshot, SerializationError>(
                self.after_wire(),
            ),
    {
        let all = self.bytes();
        let t = u32_le(self.tick);
        let st = status_bytes(self.status);
        let p0 = paddle_bytes(self.paddles[0]);
        let p1 = paddle_bytes(self.paddles[1]);
        let bl = ball_bytes(self.ball);
        let sc = seq![self.score[0], self.score[1]];
        let rg = u64_le(self.rng);
        lemma_widths(self.tick, self.rng, self.status, self.paddles[0], self.ball);
        lemma_widths(self.tick, self.rng, self.status, self.paddles[1], self.ball);
        lemma_snapshot_layout(all, t, st, p0, p1, bl, sc, rg);
        lemma_u32_roundtrip(all, 0, self.tick);
        lemma_status_roundtrip(all, 4, self.status);
        lemma_paddle_roundtrip(all, 7, self.paddles[0]);
        lemma_paddle_roundtrip(all, 15, self.paddles[1]);
        lemma_ball_roundtrip(all, 23, self.ball);
        lemma_u64_roundtrip(all, 41, self.rng);
        let back = Snapshot::decode_spec(all)->Ok_0;
        assert(back.paddles =~= self.paddles);
        assert(back.score =~= self.score);
    }

    /// Round trip: decoding the encoding of a snapshot gives the snapshot
    /// back, provided a `Scored` countdown fits in one byte.
    pub proof fn lemma_roundtrip(self)
        requires
            self.encodable(),
        ensures
            Snapshot::decode_spec(self.bytes()) == Ok::<Snapshot, SerializationError>(self),
    {
        self.lemma_decode_of_bytes();
    }

    /// Robustness: a buffer shorter than the format fails with
    /// `UnexpectedEnd`; a long enough buffer fails, with `InvalidData`,
    /// exactly when its status discriminant is above 4 or the side byte of a
    /// `Scored` or `GameOver` status is above 1.
    pub proof fn lemma_decode_total(bytes: Seq<u8>)
        ensures
            bytes.len() < SNAPSHOT_LEN <==> Snapshot::decode_spec(bytes) == Err::<
                Snapshot,
                SerializationError,
            >(SerializationError::UnexpectedEnd),
            bytes.len() >= SNAPSHOT_LEN ==> (Snapshot::decode_spec(bytes) == Err::<
                Snapshot,
                SerializationError,
            >(SerializationError::InvalidData) <==> bytes[4] > 4 || ((bytes[4] == 3 || bytes[4]
                == 4) && bytes[5] > 1)),
            bytes.len() >= SNAPSHOT_LEN && !(bytes[4] > 4 || ((bytes[4] == 3 || bytes[4] == 4)
                && bytes[5] > 1)) <==> Snapshot::decode_spec(bytes) is Ok,
            !(Snapshot::decode_spec(bytes) is Err && Snapshot::decode_spec(bytes)->Err_0
                == SerializationError::BufferTooSmall),
    {
        reveal(status_at);
    }
}

} // verus!
