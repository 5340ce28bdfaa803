//! One sensor reading and its layout on the wire.

use vstd::prelude::*;

verus! {

/// Number of bytes that a frame takes on the wire, after the marker and the
/// length field.
pub const FRAME_BYTES: usize = 28;

/// A data frame (excluding the marker and frame size).
///
/// The checksum is carried as the sensor sent it: it is not held against the
/// other fields.
#[derive(Clone, Copy, Debug, PartialEq, Eq, Structural)]
pub struct Frame {
    pub pm10_standard: u16,
    pub pm25_standard: u16,
    pub pm100_standard: u16,
    pub pm10_env: u16,
    pub pm25_env: u16,
    pub pm100_env: u16,
    pub particles_03um: u16,
    pub particles_05um: u16,
    pub particles_10um: u16,
    pub particles_25um: u16,
    pub particles_50um: u16,
    pub particles_100um: u16,
    pub unused: u16,
    pub checksum: u16,
}

/// The 16-bit value whose big-endian bytes are `hi`, `lo`.
pub open spec fn be16(hi: u8, lo: u8) -> u16 {
    (hi as int * 256 + lo as int) as u16
}

/// The first byte of `x` in big-endian order.
pub open spec fn high_byte(x: u16) -> u8 {
    (x as int / 256) as u8
}

/// The second byte of `x` in big-endian order.
pub open spec fn low_byte(x: u16) -> u8 {
    (x as int % 256) as u8
}

/// The fields that the first 28 bytes of `s` hold, each two bytes big-endian.
pub open spec fn wire_fields(s: Seq<u8>) -> Seq<u16> {
    Seq::new(14, |i: int| be16(s[2 * i], s[2 * i + 1]))
}

/// The bytes that hold the fields `f`, each two bytes big-endian.
pub open spec fn fields_wire(f: Seq<u16>) -> Seq<u8> {
    Seq::new(
        2 * f.len(),
        |j: int|
            if j % 2 == 0 {
                high_byte(f[j / 2])
            } else {
                low_byte(f[j / 2])
            },
    )
}

impl Frame {
    /// The fields in wire order.
    pub open spec fn fields(self) -> Seq<u16> {
        seq![
            self.pm10_standard,
            self.pm25_standard,
            self.pm100_standard,
            self.pm10_env,
            self.pm25_env,
            self.pm100_env,
            self.particles_03um,
            self.particles_05um,
            self.particles_10um,
            self.particles_25um,
            self.particles_50um,
            self.particles_100um,
            self.unused,
            self.checksum,
        ]
    }

    /// The frame whose fields in wire order are the first 14 entries of `f`.
    pub open spec fn from_fields(f: Seq<u16>) -> Frame {
        Frame {
            pm10_standard: f[0],
            pm25_standard: f[1],
            pm100_standard: f[2],
            pm10_env: f[3],
            pm25_env: f[4],
            pm100_env: f[5],
            particles_03um: f[6],
            particles_05um: f[7],
            particles_10um: f[8],
            particles_25um: f[9],
            particles_50um: f[10],
            particles_100um: f[11],
            unused: f[12],
            checksum: f[13],
        }
    }

    /// The 28 bytes of this frame on the wire.
    pub open spec fn wire(self) -> Seq<u8> {
        fields_wire(self.fields())
    }

    /// The frame with every field zero.
    pub open spec fn zero() -> Frame {
        Frame::from_fields(Seq::new(14, |i: int| 0u16))
    }

    /// Builds a frame from its fields in wire order.
    pub fn from_array(f: [u16; 14]) -> (frame: Frame)
        ensures
            frame == Frame::from_fields(f@),
            frame.fields() == f@,
    {
        let frame = Frame {
            pm10_standard: f[0],
            pm25_standard: f[1],
            pm100_standard: f[2],
            pm10_env: f[3],
            pm25_env: f[4],
            pm100_env: f[5],
            particles_03um: f[6],
            particles_05um: f[7],
            particles_10um: f[8],
            particles_25um: f[9],
            particles_50um: f[10],
            particles_100um: f[11],
            unused: f[12],
            checksum: f[13],
        };
        assert(frame.fields() =~= f@);
        frame
    }

    /// The fields in wire order.
    pub fn to_array(&self) -> (f: [u16; 14])
        ensures
            f@ == self.fields(),
    {
        let f: [u16; 14] = [
            self.pm10_standard,
            self.pm25_standard,
            self.pm100_standard,
            self.pm10_env,
            self.pm25_env,
            self.pm100_env,
            self.particles_03um,
            self.particles_05um,
            self.particles_10um,
            self.particles_25um,
            self.particles_50um,
            self.particles_100um,
            self.unused,
            self.checksum,
        ];
        assert(f@ =~= self.fields());
        f
    }

    /// Encodes the frame as it stands on the wire: 14 fields, two bytes each,
    /// big-endian.
    pub fn to_bytes(&self) -> (bytes: Vec<u8>)
        ensures
            bytes@ == self.wire(),
            bytes@.len() == 28,
    {
        let f = self.to_array();
        let mut bytes: Vec<u8> = Vec::new();
        let mut i: usize = 0;
        while i < 14
            invariant
                i <= 14,
                f@ == self.fields(),
                bytes@.len() == 2 * i,
                forall|j: int| 0 <= j < 2 * i ==> bytes@[j] == self.wire()[j],
            decreases 14 - i,
        {
            let x: u16 = f[i];
            let hi: u8 = (x / 256) as u8;
            let lo: u8 = (x % 256) as u8;
            bytes.push(hi);
            bytes.push(lo);
            i = i + 1;
        }
        assert(bytes@ =~= self.wire());
        bytes
    }
}

impl Default for Frame {
    fn default() -> (frame: Frame)
        ensures
            frame == Frame::zero(),
    {
        Frame::from_array([0u16, 0, 0, 0, 0, 0, 0, 0, 0, 0, 0, 0, 0, 0])
    }
}

/// The two bytes of a 16-bit value, read back big-endian, give the value.
pub proof fn lemma_be16_of_bytes(x: u16)
    ensures
        be16(high_byte(x), low_byte(x)) == x,
{
}

/// A 16-bit value made of two bytes has those bytes.
pub proof fn lemma_bytes_of_be16(hi: u8, lo: u8)
    ensures
        high_byte(be16(hi, lo)) == hi,
        low_byte(be16(hi, lo)) == lo,
{
}

/// Encoding a frame and reading the fields back gives the frame: every field
/// keeps its value, whatever it is.
pub proof fn lemma_wire_round_trip(frame: Frame)
    ensures
        frame.wire().len() == 28,
        wire_fields(frame.wire()) == frame.fields(),
        Frame::from_fields(wire_fields(frame.wire())) == frame,
{
    let f = frame.fields();
    let w = frame.wire();
    assert forall|i: int| 0 <= i < 14 implies #[trigger] wire_fields(w)[i] == f[i] by {
        lemma_be16_of_bytes(f[i]);
        assert(w[2 * i] == high_byte(f[i]));
        assert(w[2 * i + 1] == low_byte(f[i]));
    }
    assert(wire_fields(w) =~= f);
}

/// Reading 28 bytes as a frame and encoding it gives the same 28 bytes: no
/// two payloads decode to one frame.
pub proof fn lemma_fields_round_trip(s: Seq<u8>)
    requires
        s.len() == 28,
    ensures
        Frame::from_fields(wire_fields(s)).wire() == s,
{
    let frame = Frame::from_fields(wire_fields(s));
    let f = wire_fields(s);
    assert(frame.fields() =~= f);
    let w = frame.wire();
    assert forall|j: int| 0 <= j < 28 implies w[j] == s[j] by {
        let i = j / 2;
        lemma_bytes_of_be16(s[2 * i], s[2 * i + 1]);
        assert(f[i] == be16(s[2 * i], s[2 * i + 1]));
    }
    assert(w =~= s);
}

} // verus!
