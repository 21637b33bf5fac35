//! The content handle: a mapping or an owned buffer, seen as bytes.
use core::ops::Deref;
use memmap2::Mmap;
use vstd::prelude::*;

verus! {

#[verifier::external_type_specification]
#[verifier::external_body]
pub struct ExMmap(Mmap);

/// The bytes a mapping spans.
pub uninterp spec fn mapped_bytes(m: Mmap) -> Seq<u8>;

/// Relies on `<memmap2::Mmap as Deref>::deref`: the slice of the mapped bytes.
pub assume_specification[ <Mmap as core::ops::Deref>::deref ](m: &Mmap) -> (r: &[u8])
    ensures
        r@ == mapped_bytes(*m),
;

/// Relies on `Vec::into_boxed_slice`: the boxed slice holds the vector's
/// elements, in the same order.
#[verifier::external_body]
fn boxed_bytes(v: Vec<u8>) -> (r: Box<[u8]>)
    ensures
        r@ == v@,
{
    v.into_boxed_slice()
}

/// Buffered or mapped file contents.
pub enum FileHandle {
    Mapped(Mmap),
    Buffered(Box<[u8]>),
}

impl View for FileHandle {
    type V = Seq<u8>;

    open spec fn view(&self) -> Seq<u8> {
        match self {
            FileHandle::Mapped(m) => mapped_bytes(*m),
            FileHandle::Buffered(b) => b@,
        }
    }
}

impl FileHandle {
    /// The contents of the handle.
    pub fn as_slice(&self) -> (r: &[u8])
        ensures
            r@ == self@,
    {
        match self {
            FileHandle::Mapped(m) => m.deref(),
            FileHandle::Buffered(b) => b,
        }
    }

    /// The number of bytes in the handle.
    pub fn len(&self) -> (r: usize)
        ensures
            r == self@.len(),
    {
        self.as_slice().len()
    }

    /// Whether the handle holds no bytes.
    pub fn is_empty(&self) -> (r: bool)
        ensures
            r == (self@.len() == 0),
    {
        self.as_slice().len() == 0
    }

    /// A handle that holds no bytes.
    pub fn empty() -> (r: FileHandle)
        ensures
            r@ == Seq::<u8>::empty(),
            r is Buffered,
    {
        FileHandle::Buffered(boxed_bytes(Vec::new()))
    }

    /// A handle that owns the given bytes.
    pub fn from_vec(contents: Vec<u8>) -> (r: FileHandle)
        ensures
            r@ == contents@,
            r is Buffered,
    {
        FileHandle::Buffered(boxed_bytes(contents))
    }
}

impl Deref for FileHandle {
    type Target = [u8];

    fn deref(&self) -> &[u8] {
        self.as_slice()
    }
}

impl AsRef<[u8]> for FileHandle {
    fn as_ref(&self) -> &[u8] {
        self.as_slice()
    }
}

} // verus!
