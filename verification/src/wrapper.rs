//! Reading an envelope in place, and putting a header in front of a body.

use vstd::prelude::*;
use vstd::slice::slice_to_vec;
use crate::header::{body_of, claimed_id, claimed_version, header_bytes, Header, HEADER_LEN};

verus! {

/// An envelope taken apart: its header, decoded, and a borrowed view of the
/// body bytes that follow it.
///
/// The buffer that the envelope was read from is borrowed, never written:
/// the setters change the header that the wrapper holds, and [`Wrapper::to_vec`]
/// gives the envelope with that header.
#[derive(Debug)]
pub struct Wrapper<'a> {
    header: Header,
    value: &'a [u8],
}

impl<'a> Wrapper<'a> {
    /// The model identity in the header.
    pub closed spec fn id(self) -> u32 {
        self.header.id()
    }

    /// The schema version in the header.
    pub closed spec fn version(self) -> u32 {
        self.header.version()
    }

    /// The body bytes.
    pub closed spec fn body(self) -> Seq<u8> {
        self.value@
    }

    /// Takes an envelope apart without copying its body. `None` exactly when
    /// the buffer is shorter than a header.
    pub fn deserialize(packed: &'a [u8]) -> (r: Option<Wrapper<'a>>)
        ensures
            r is None <==> packed@.len() < HEADER_LEN,
            r matches Some(w) ==> {
                &&& w.id() == claimed_id(packed@)
                &&& w.version() == claimed_version(packed@)
                &&& w.body() == body_of(packed@)
            },
    {
        match Header::read_from_prefix(packed) {
            Some((header, rest)) => Some(Wrapper { header, value: rest }),
            None => None,
        }
    }

    /// The body bytes, borrowed from the buffer the envelope was read from.
    pub fn value(&self) -> (v: &'a [u8])
        ensures
            v@ == self.body(),
    {
        self.value
    }

    /// The model identity in the header.
    pub fn get_type_id(&self) -> (id: u32)
        ensures
            id == self.id(),
    {
        self.header.get_id()
    }

    /// The model identity in the header.
    pub fn get_id(&self) -> (id: u32)
        ensures
            id == self.id(),
    {
        self.header.get_id()
    }

    /// The schema version in the header.
    pub fn get_version(&self) -> (version: u32)
        ensures
            version == self.version(),
    {
        self.header.get_version()
    }

    /// The envelope as the wrapper now has it, in a fresh buffer: the header
    /// with the identity and the version of the wrapper, then the body.
    pub fn to_vec(&self) -> (out: Vec<u8>)
        ensures
            out@ == header_bytes(self.id(), self.version()) + self.body(),
            out@.len() == HEADER_LEN + self.body().len(),
    {
        let mut out = self.header.to_vec();
        let mut body = slice_to_vec(self.value);
        out.append(&mut body);
        out
    }

    /// Replaces the model identity in the header that the wrapper holds;
    /// version and body stay. The buffer that was read is not written.
    pub fn set_type_id(&mut self, type_id: u32)
        ensures
            final(self).id() == type_id,
            final(self).version() == old(self).version(),
            final(self).body() == old(self).body(),
    {
        self.header = Header::new(type_id, self.header.get_version());
    }

    /// Replaces the schema version in the header that the wrapper holds;
    /// identity and body stay. The buffer that was read is not written.
    pub fn set_version(&mut self, version: u32)
        ensures
            final(self).id() == old(self).id(),
            final(self).version() == version,
            final(self).body() == old(self).body(),
    {
        self.header = Header::new(self.header.get_id(), version);
    }
}

/// Puts the header for `type_id` and `version` in front of the body in
/// `data`. The body is moved, not copied: `data` is left empty.
pub fn native_model_encode(data: &mut Vec<u8>, type_id: u32, version: u32) -> (out: Vec<u8>)
    ensures
        out@ == header_bytes(type_id, version) + old(data)@,
        out@.len() == HEADER_LEN + old(data)@.len(),
        final(data)@ == Seq::<u8>::empty(),
{
    let mut out = Header::new(type_id, version).to_vec();
    out.append(data);
    out
}

} // verus!
