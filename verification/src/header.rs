//! The fixed eight-byte header: two little-endian 32-bit unsigned integers,
//! the model identity first and the schema version second.

use vstd::prelude::*;

verus! {

/// Number of bytes that the header occupies at the front of every envelope.
pub const HEADER_LEN: usize = 8;

/// The four bytes of `x`, least significant first.
pub open spec fn le_bytes(x: u32) -> Seq<u8> {
    seq![
        (x % 256) as u8,
        ((x / 256) % 256) as u8,
        ((x / 65536) % 256) as u8,
        ((x / 16777216) % 256) as u8,
    ]
}

/// The number whose little-endian bytes are the first four bytes of `b`.
pub open spec fn le_value(b: Seq<u8>) -> u32
    recommends
        b.len() >= 4,
{
    (b[0] + 256 * b[1] + 65536 * b[2] + 16777216 * b[3]) as u32
}

/// The eight header bytes for a model identity and a version.
pub open spec fn header_bytes(id: u32, version: u32) -> Seq<u8> {
    le_bytes(id) + le_bytes(version)
}

/// The model identity that the first four bytes of an envelope name.
pub open spec fn claimed_id(packed: Seq<u8>) -> u32
    recommends
        packed.len() >= 8,
{
    le_value(packed.subrange(0, 4))
}

/// The schema version that the second four bytes of an envelope name.
pub open spec fn claimed_version(packed: Seq<u8>) -> u32
    recommends
        packed.len() >= 8,
{
    le_value(packed.subrange(4, 8))
}

/// What follows the header in an envelope.
pub open spec fn body_of(packed: Seq<u8>) -> Seq<u8>
    recommends
        packed.len() >= 8,
{
    packed.subrange(8, packed.len() as int)
}

/// Reading back the bytes of a number gives the number.
pub proof fn lemma_le_value_of_bytes(x: u32)
    ensures
        le_bytes(x).len() == 4,
        le_value(le_bytes(x)) == x,
{
}

/// Writing the number read from four bytes gives those bytes.
pub proof fn lemma_le_bytes_of_value(b: Seq<u8>)
    requires
        b.len() == 4,
    ensures
        le_bytes(le_value(b)) == b,
{
    let b0 = b[0] as int;
    let b1 = b[1] as int;
    let b2 = b[2] as int;
    let b3 = b[3] as int;
    let x = le_value(b) as int;
    assert(x == b0 + 256 * (b1 + 256 * (b2 + 256 * b3)));
    assert(x % 256 == b0 && x / 256 == b1 + 256 * (b2 + 256 * b3));
    assert((x / 256) % 256 == b1 && x / 65536 == b2 + 256 * b3);
    assert((x / 65536) % 256 == b2 && x / 16777216 == b3);
    assert(le_bytes(le_value(b)) =~= b);
}

/// An envelope made of a header and a body gives back the identity, the
/// version and the body it was made of.
pub proof fn lemma_envelope_parts(id: u32, version: u32, body: Seq<u8>)
    ensures
        (header_bytes(id, version) + body).len() == 8 + body.len(),
        claimed_id(header_bytes(id, version) + body) == id,
        claimed_version(header_bytes(id, version) + body) == version,
        body_of(header_bytes(id, version) + body) == body,
{
    let packed = header_bytes(id, version) + body;
    lemma_le_value_of_bytes(id);
    lemma_le_value_of_bytes(version);
    assert(packed.subrange(0, 4) =~= le_bytes(id));
    assert(packed.subrange(4, 8) =~= le_bytes(version));
    assert(packed.subrange(8, packed.len() as int) =~= body);
}

/// The decoded header of an envelope.
#[derive(Clone, Copy, Debug, PartialEq, Eq, Structural)]
pub struct Header {
    pub(crate) id: u32,
    pub(crate) version: u32,
}

fn put_le(out: &mut Vec<u8>, x: u32)
    ensures
        final(out)@ == old(out)@ + le_bytes(x),
{
    out.push((x % 256) as u8);
    out.push(((x / 256) % 256) as u8);
    out.push(((x / 65536) % 256) as u8);
    out.push(((x / 16777216) % 256) as u8);
    assert(out@ =~= old(out)@ + le_bytes(x));
}

fn get_le(bytes: &[u8], at: usize) -> (x: u32)
    requires
        at + 4 <= bytes@.len(),
    ensures
        x == le_value(bytes@.subrange(at as int, at + 4)),
{
    let b0: u32 = bytes[at] as u32;
    let b1: u32 = bytes[at + 1] as u32;
    let b2: u32 = bytes[at + 2] as u32;
    let b3: u32 = bytes[at + 3] as u32;
    b0 + 256 * b1 + 65536 * b2 + 16777216 * b3
}

impl Header {
    /// The model identity that the header names.
    pub closed spec fn id(self) -> u32 {
        self.id
    }

    /// The schema version that the header names.
    pub closed spec fn version(self) -> u32 {
        self.version
    }

    /// The header as it stands on the wire.
    pub open spec fn bytes(self) -> Seq<u8> {
        header_bytes(self.id(), self.version())
    }

    /// A header for the given identity and version.
    pub fn new(id: u32, version: u32) -> (h: Header)
        ensures
            h.id() == id,
            h.version() == version,
    {
        Header { id, version }
    }

    /// The model identity.
    pub fn get_id(&self) -> (id: u32)
        ensures
            id == self.id(),
    {
        self.id
    }

    /// The schema version.
    pub fn get_version(&self) -> (version: u32)
        ensures
            version == self.version(),
    {
        self.version
    }

    /// The eight bytes of this header, in a fresh buffer.
    pub fn to_vec(&self) -> (out: Vec<u8>)
        ensures
            out@ == self.bytes(),
            out@.len() == HEADER_LEN,
    {
        let mut out: Vec<u8> = Vec::with_capacity(HEADER_LEN);
        put_le(&mut out, self.id);
        put_le(&mut out, self.version);
        out
    }

    /// Splits a buffer into its header and what follows it; `None` exactly
    /// when the buffer is shorter than a header.
    pub fn read_from_prefix(packed: &[u8]) -> (r: Option<(Header, &[u8])>)
        ensures
            r is None <==> packed@.len() < HEADER_LEN,
            r matches Some((h, rest)) ==> {
                &&& h.id() == claimed_id(packed@)
                &&& h.version() == claimed_version(packed@)
                &&& rest@ == body_of(packed@)
            },
    {
        if packed.len() < HEADER_LEN {
            return None;
        }
        let id = get_le(packed, 0);
        let version = get_le(packed, 4);
        let rest = vstd::slice::slice_subrange(packed, HEADER_LEN, packed.len());
        Some((Header { id, version }, rest))
    }
}

} // verus!
