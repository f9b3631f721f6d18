use vstd::prelude::*;

verus! {

/// Number of 32-bit scalars in a frame.
pub const FRAME_WORDS: usize = 12;

/// Bytes in a frame: four per scalar, nothing else.
pub const FRAME_LEN: usize = 48;

/// How many snapshots wait for the network writer at most.
pub const QUEUE_CAPACITY: usize = 32;

/// A 3-vector of IEEE-754 single-precision bit patterns.
#[derive(Clone, Copy, Debug, PartialEq, Eq, Structural)]
pub struct WireVec3 {
    pub x: u32,
    pub y: u32,
    pub z: u32,
}

/// One telemetry sample. Every scalar is the bit pattern of an IEEE-754
/// single-precision float, so that a frame carries it bit for bit.
#[derive(Clone, Copy, Debug, PartialEq, Eq, Structural)]
pub struct TelemetryData {
    pub fuel: u32,
    pub altitude: u32,
    pub velocity: WireVec3,
    pub thrust: u32,
    pub left_ecs: u32,
    pub right_ecs: u32,
    pub wind_speed: u32,
    pub wind_direction: WireVec3,
}

/// Why a frame could not be decoded.
#[derive(Clone, Copy, Debug, PartialEq, Eq, Structural)]
pub enum FrameError {
    /// Fewer than `FRAME_LEN` bytes.
    Truncated,
}

/// The scalars of a snapshot in wire order.
pub open spec fn snapshot_words(s: TelemetryData) -> Seq<u32> {
    seq![
        s.fuel,
        s.altitude,
        s.velocity.x,
        s.velocity.y,
        s.velocity.z,
        s.thrust,
        s.left_ecs,
        s.right_ecs,
        s.wind_speed,
        s.wind_direction.x,
        s.wind_direction.y,
        s.wind_direction.z,
    ]
}

/// The snapshot whose scalars in wire order are the first twelve of `w`.
pub open spec fn snapshot_of_words(w: Seq<u32>) -> TelemetryData {
    TelemetryData {
        fuel: w[0],
        altitude: w[1],
        velocity: WireVec3 { x: w[2], y: w[3], z: w[4] },
        thrust: w[5],
        left_ecs: w[6],
        right_ecs: w[7],
        wind_speed: w[8],
        wind_direction: WireVec3 { x: w[9], y: w[10], z: w[11] },
    }
}

/// Byte `k` (0 to 3) of `w` in little-endian order.
pub open spec fn le_byte(w: u32, k: int) -> u8 {
    if k == 0 {
        (w & 0xff) as u8
    } else if k == 1 {
        ((w >> 8u32) & 0xff) as u8
    } else if k == 2 {
        ((w >> 16u32) & 0xff) as u8
    } else {
        ((w >> 24u32) & 0xff) as u8
    }
}

/// The words of `ws`, each as four little-endian bytes, one after another.
pub open spec fn le_bytes_of_words(ws: Seq<u32>) -> Seq<u8> {
    Seq::new(4 * ws.len(), |i: int| le_byte(ws[i / 4], i % 4))
}

/// The little-endian word in the four bytes of `b` from `at` on.
pub open spec fn le_word(b: Seq<u8>, at: int) -> u32 {
    (b[at] as u32) | ((b[at + 1] as u32) << 8u32) | ((b[at + 2] as u32) << 16u32) | ((b[at + 3] as u32) << 24u32)
}

/// The first `n` little-endian words of `b`.
pub open spec fn le_words_of_bytes(b: Seq<u8>, n: nat) -> Seq<u32> {
    Seq::new(n, |i: int| le_word(b, 4 * i))
}

/// The frame of a snapshot.
pub open spec fn frame_bytes(s: TelemetryData) -> Seq<u8> {
    le_bytes_of_words(snapshot_words(s))
}

/// What a frame decodes to: the snapshot of its first `FRAME_LEN` bytes, if it has that many.
pub open spec fn parse_frame(b: Seq<u8>) -> Option<TelemetryData> {
    if b.len() >= FRAME_LEN {
        Some(snapshot_of_words(le_words_of_bytes(b, FRAME_WORDS as nat)))
    } else {
        None
    }
}

#[verifier::external_type_specification]
#[verifier::external_body]
pub struct ExBincodeErrorKind(bincode::ErrorKind);

/// Relies on `bincode::serialize`: under bincode's default options a
/// `[u32; 12]` is written as its twelve words in order, each as four
/// little-endian bytes, with no length prefix; with no size limit and a
/// `Vec` to write into, it does not fail.
#[verifier::external_body]
fn serialize_words(words: &[u32; 12]) -> (r: Result<Vec<u8>, Box<bincode::ErrorKind>>)
    ensures
        r.is_ok(),
        r.is_ok() ==> r->Ok_0@ == le_bytes_of_words(words@),
{
    bincode::serialize(words)
}

/// Relies on `bincode::deserialize`: under bincode's default options a
/// `[u32; 12]` is read as twelve little-endian words from the front of the
/// slice, trailing bytes allowed; it fails when fewer than 48 bytes are there.
#[verifier::external_body]
fn deserialize_words(bytes: &[u8]) -> (r: Result<[u32; 12], Box<bincode::ErrorKind>>)
    ensures
        r.is_ok() == (bytes@.len() >= 48),
        r.is_ok() ==> r->Ok_0@ == le_words_of_bytes(bytes@, 12),
{
    bincode::deserialize::<[u32; 12]>(bytes)
}

impl TelemetryData {
    /// The scalars in wire order.
    pub fn words(&self) -> (r: [u32; 12])
        ensures
            r@ == snapshot_words(*self),
    {
        let r = [
            self.fuel,
            self.altitude,
            self.velocity.x,
            self.velocity.y,
            self.velocity.z,
            self.thrust,
            self.left_ecs,
            self.right_ecs,
            self.wind_speed,
            self.wind_direction.x,
            self.wind_direction.y,
            self.wind_direction.z,
        ];
        assert(r@ =~= snapshot_words(*self));
        r
    }

    /// The snapshot with the scalars of `w` in wire order.
    pub fn from_words(w: &[u32; 12]) -> (r: TelemetryData)
        ensures
            r == snapshot_of_words(w@),
    {
        TelemetryData {
            fuel: w[0],
            altitude: w[1],
            velocity: WireVec3 { x: w[2], y: w[3], z: w[4] },
            thrust: w[5],
            left_ecs: w[6],
            right_ecs: w[7],
            wind_speed: w[8],
            wind_direction: WireVec3 { x: w[9], y: w[10], z: w[11] },
        }
    }
}

/// The frame of a snapshot: its twelve scalars in wire order, four
/// little-endian bytes each, no prefix and no delimiter.
pub fn encode_frame(snapshot: &TelemetryData) -> (r: Vec<u8>)
    ensures
        r@ == frame_bytes(*snapshot),
        r@.len() == FRAME_LEN,
{
    let words = snapshot.words();
    match serialize_words(&words) {
        Ok(bytes) => bytes,
        Err(_) => Vec::new(),
    }
}

/// Decodes the snapshot at the front of `bytes`.
pub fn decode_frame(bytes: &[u8]) -> (r: Result<TelemetryData, FrameError>)
    ensures
        bytes@.len() >= FRAME_LEN ==> r == Ok::<TelemetryData, FrameError>(
            snapshot_of_words(le_words_of_bytes(bytes@, FRAME_WORDS as nat)),
        ),
        bytes@.len() < FRAME_LEN ==> r == Err::<TelemetryData, FrameError>(FrameError::Truncated),
{
    match deserialize_words(bytes) {
        Ok(words) => Ok(TelemetryData::from_words(&words)),
        Err(_) => Err(FrameError::Truncated),
    }
}

proof fn lemma_le_word_of_bytes(w: u32)
    ensures
        ((w & 0xff) as u8 as u32) | ((((w >> 8u32) & 0xff) as u8 as u32) << 8u32) | ((((w >> 16u32) & 0xff) as u8 as u32) << 16u32)
            | ((((w >> 24u32) & 0xff) as u8 as u32) << 24u32) == w,
{
    assert(((w & 0xff) as u8 as u32) == (w & 0xff)) by (bit_vector);
    assert((((w >> 8u32) & 0xff) as u8 as u32) == ((w >> 8u32) & 0xff)) by (bit_vector);
    assert((((w >> 16u32) & 0xff) as u8 as u32) == ((w >> 16u32) & 0xff)) by (bit_vector);
    assert((((w >> 24u32) & 0xff) as u8 as u32) == ((w >> 24u32) & 0xff)) by (bit_vector);
    assert((w & 0xff) | (((w >> 8u32) & 0xff) << 8u32) | (((w >> 16u32) & 0xff) << 16u32) | (((w >> 24u32) & 0xff) << 24u32) == w)
        by (bit_vector);
}

/// Decoding the frame of a snapshot gives back that snapshot, bit for bit.
pub proof fn lemma_frame_round_trip(s: TelemetryData)
    ensures
        frame_bytes(s).len() == FRAME_LEN,
        parse_frame(frame_bytes(s)) == Some(s),
{
    let ws = snapshot_words(s);
    let b = frame_bytes(s);
    assert forall|i: int| 0 <= i < 12 implies #[trigger] le_word(b, 4 * i) == ws[i] by {
        assert((4 * i) / 4 == i && (4 * i + 1) / 4 == i && (4 * i + 2) / 4 == i && (4 * i + 3) / 4 == i);
        assert((4 * i) % 4 == 0 && (4 * i + 1) % 4 == 1 && (4 * i + 2) % 4 == 2 && (4 * i + 3) % 4 == 3);
        lemma_le_word_of_bytes(ws[i]);
    }
    let back = le_words_of_bytes(b, FRAME_WORDS as nat);
    assert(back =~= ws);
}

} // verus!
