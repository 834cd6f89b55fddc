//! The tag-declaration model: a tag kind, a tag type referencing a
//! function type by index, and the append-only `TagSection` accumulator,
//! the simpler sibling of the type-section accumulator.

use vstd::prelude::*;

use crate::leb128::push_unsigned_leb128;
use crate::leb128::unsigned_leb128;

verus! {

/// Represents a tag kind.
#[derive(Clone, Copy, Debug, PartialEq, Eq)]
pub enum TagKind {
    /// The tag is an exception type.
    Exception,
}

/// The fixed one-byte code of a tag kind.
pub open spec fn tag_kind_byte(k: TagKind) -> u8 {
    match k {
        TagKind::Exception => 0x00,
    }
}

/// A tag's type.
#[derive(Clone, Copy, Debug, PartialEq, Eq)]
pub struct TagType {
    /// The kind of tag.
    pub kind: TagKind,
    /// The function type this tag uses, as an index into the type section.
    pub func_type_idx: u32,
}

/// The encoding of a tag type: the kind's one-byte code followed by the
/// function type index as an unsigned LEB128 integer.
pub open spec fn tag_type_bytes(t: TagType) -> Seq<u8> {
    seq![tag_kind_byte(t.kind)] + unsigned_leb128(t.func_type_idx as nat)
}

impl TagType {
    /// Append this tag type's encoding to `sink`.
    pub fn encode(&self, sink: &mut Vec<u8>)
        ensures
            final(sink)@ == old(sink)@ + tag_type_bytes(*self),
    {
        let b: u8 = match self.kind {
            TagKind::Exception => 0x00,
        };
        sink.push(b);
        push_unsigned_leb128(sink, self.func_type_idx);
        assert(sink@ =~= old(sink)@ + tag_type_bytes(*self));
    }
}

/// An encoder for the tag section of a WebAssembly module: an append-only
/// byte buffer together with a declaration counter. The finished buffer
/// and count are read through [`TagSection::bytes`] and
/// [`TagSection::len`].
#[derive(Clone, Debug)]
pub struct TagSection {
    bytes: Vec<u8>,
    num_added: u32,
}

impl TagSection {
    /// The encoded declarations so far.
    pub closed spec fn buf(self) -> Seq<u8> {
        self.bytes@
    }

    /// The number of declarations so far.
    pub closed spec fn count(self) -> u32 {
        self.num_added
    }

    /// Create a new tag section encoder.
    pub fn new() -> (s: Self)
        ensures
            s.count() == 0,
            s.buf() == Seq::<u8>::empty(),
    {
        TagSection { bytes: Vec::new(), num_added: 0 }
    }

    /// The number of tags in the section.
    pub fn len(&self) -> (n: u32)
        ensures
            n == self.count(),
    {
        self.num_added
    }

    /// Determines if the section is empty.
    pub fn is_empty(&self) -> (b: bool)
        ensures
            b == (self.count() == 0),
    {
        self.num_added == 0
    }

    /// The raw encoded contents of the section: what a section-framing
    /// step wraps, together with the count, into the final section bytes.
    pub fn bytes(&self) -> (r: &Vec<u8>)
        ensures
            r@ == self.buf(),
    {
        &self.bytes
    }

    /// Define a tag.
    pub fn tag(&mut self, tag_type: TagType)
        requires
            old(self).count() < u32::MAX,
        ensures
            final(self).buf() == old(self).buf() + tag_type_bytes(tag_type),
            final(self).count() == old(self).count() + 1,
    {
        tag_type.encode(&mut self.bytes);
        self.num_added = self.num_added + 1;
    }
}

impl Default for TagSection {
    /// An empty tag section.
    fn default() -> (s: Self)
        ensures
            s.count() == 0,
            s.buf() == Seq::<u8>::empty(),
    {
        TagSection::new()
    }
}

} // verus!
