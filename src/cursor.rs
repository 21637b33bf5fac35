//! A cursor over a file that tracks a logical offset, and the chunked
//! sequence of reads built on it.
use crate::backend::{do_offset_add, offset_add};
use crate::handle::FileHandle;
use crate::length::{plan_of, plan_read, LengthSpec, ReadPlan};
use vstd::prelude::*;

verus! {

/// Where a seek is measured from.
#[derive(Clone, Copy, PartialEq, Eq, Hash, Debug)]
pub enum SeekFrom {
    /// From the start of the file.
    Start(u64),
    /// From the cached end of the file.
    End(i64),
    /// From the current offset.
    Current(i64),
}

/// A seek that would leave the valid range of offsets.
#[derive(Clone, Copy, PartialEq, Eq, Hash, Debug)]
pub struct SeekOutOfRange;

/// What a cursor knows: the cached file length and the logical offset.
pub struct CursorState {
    pub flen: Option<u64>,
    pub offset: u64,
}

/// Whether `y` lies within a known file length (always, when it is unknown).
pub open spec fn within_len(y: u64, flen: Option<u64>) -> bool {
    match flen {
        Some(l) => y <= l,
        None => true,
    }
}

/// The offset a seek moves to, or `None` when it is rejected.  An absolute
/// seek may go past the end; a relative one may not, nor below zero.
pub open spec fn seek_target(offset: u64, flen: Option<u64>, pos: SeekFrom) -> Option<u64> {
    let candidate = match pos {
        SeekFrom::Start(x) => Some(x),
        SeekFrom::End(d) => match flen {
            Some(l) => offset_add(l, d),
            None => None,
        },
        SeekFrom::Current(d) => offset_add(offset, d),
    };
    match candidate {
        Some(y) => if pos is Start || within_len(y, flen) {
            Some(y)
        } else {
            None
        },
        None => None,
    }
}

/// A file read piece by piece from a logical offset.
pub struct ContinuableFile<F> {
    file: F,
    flen: Option<u64>,
    offset: u64,
}

impl<F> View for ContinuableFile<F> {
    type V = CursorState;

    closed spec fn view(&self) -> CursorState {
        CursorState { flen: self.flen, offset: self.offset }
    }
}

impl<F> ContinuableFile<F> {
    /// The file the cursor reads.
    pub closed spec fn spec_file(&self) -> F {
        self.file
    }

    /// A cursor at offset zero over `file`, whose length is `flen` when known.
    pub fn new(file: F, flen: Option<u64>) -> (r: Self)
        ensures
            r@ == (CursorState { flen, offset: 0 }),
            r.spec_file() == file,
    {
        ContinuableFile { file, flen, offset: 0 }
    }

    /// A sequence of reads of `lns` each, starting at the current offset.
    pub fn into_chunks(self, lns: LengthSpec) -> (r: ChunkedFile<F>)
        ensures
            r.cf == self,
            r.lns == lns,
            !r.is_finished(),
    {
        ChunkedFile { cf: self, lns, finished: false }
    }

    /// Replaces the cached file length.
    pub fn sync_len(&mut self, flen: Option<u64>)
        ensures
            final(self)@ == (CursorState { flen, offset: old(self)@.offset }),
            final(self).spec_file() == old(self).spec_file(),
    {
        self.flen = flen;
    }

    /// How the next read of `lns` is to be carried out.
    pub fn plan_next(&self, lns: LengthSpec) -> (r: ReadPlan)
        ensures
            r == plan_of(self@.offset, lns, self@.flen),
    {
        plan_read(self.offset, lns, self.flen)
    }

    /// Completes a read: a handle moves the offset past its bytes, an error
    /// leaves it where it was.  Either is handed back.
    pub fn finish_next<E>(&mut self, read: Result<FileHandle, E>) -> (r: Result<FileHandle, E>)
        requires
            read matches Ok(h) ==> old(self)@.offset + h@.len() <= u64::MAX,
        ensures
            r == read,
            final(self)@.flen == old(self)@.flen,
            final(self).spec_file() == old(self).spec_file(),
            final(self)@.offset == match read {
                Ok(h) => (old(self)@.offset + h@.len()) as u64,
                Err(_) => old(self)@.offset,
            },
    {
        match read {
            Ok(h) => {
                let n = h.len();
                self.offset = self.offset + n as u64;
                Ok(h)
            },
            Err(e) => Err(e),
        }
    }

    /// Moves the offset; a rejected seek leaves it where it was.
    pub fn seek(&mut self, pos: SeekFrom) -> (r: Result<u64, SeekOutOfRange>)
        ensures
            final(self)@.flen == old(self)@.flen,
            final(self).spec_file() == old(self).spec_file(),
            match seek_target(old(self)@.offset, old(self)@.flen, pos) {
                Some(y) => r == Ok::<u64, SeekOutOfRange>(y) && final(self)@.offset == y,
                None => r is Err && final(self)@.offset == old(self)@.offset,
            },
    {
        let candidate = match pos {
            SeekFrom::Start(x) => Some(x),
            SeekFrom::End(d) => match self.flen {
                Some(l) => do_offset_add(l, d),
                None => None,
            },
            SeekFrom::Current(d) => do_offset_add(self.offset, d),
        };
        match candidate {
            Some(y) => {
                let inside = match self.flen {
                    Some(l) => y <= l,
                    None => true,
                };
                if inside || matches!(pos, SeekFrom::Start(_)) {
                    self.offset = y;
                    Ok(y)
                } else {
                    Err(SeekOutOfRange)
                }
            },
            None => Err(SeekOutOfRange),
        }
    }

    /// The current offset.
    pub fn stream_position(&self) -> (r: u64)
        ensures
            r == self@.offset,
    {
        self.offset
    }

    /// The cached file length.
    pub fn file_len(&self) -> (r: Option<u64>)
        ensures
            r == self@.flen,
    {
        self.flen
    }

    /// The file the cursor reads.
    pub fn file(&self) -> (r: &F)
        ensures
            *r == self.spec_file(),
    {
        &self.file
    }
}

/// Repeated reads of one `LengthSpec` from a cursor, until a read comes
/// back empty or fails.
pub struct ChunkedFile<F> {
    pub cf: ContinuableFile<F>,
    pub lns: LengthSpec,
    /// Set once a read has failed: the sequence yields nothing more.
    pub finished: bool,
}

/// The size hint of a chunked sequence: when the length and the bound are
/// known, the number of whole chunks left, and one more at most.
pub open spec fn hint_of(state: CursorState, lns: LengthSpec) -> (usize, Option<usize>) {
    match (state.flen, lns.bound) {
        (Some(l), Some(k)) => if k == 0 {
            (0, Some(0))
        } else {
            let rest: int = if state.offset <= l { l - state.offset } else { 0 };
            let q = rest / (k as int);
            if q < usize::MAX {
                (q as usize, Some((q + 1) as usize))
            } else {
                (usize::MAX, None)
            }
        },
        _ => (0, None),
    }
}

impl<F> ChunkedFile<F> {
    /// Whether an error has ended the sequence.
    pub open spec fn is_finished(&self) -> bool {
        self.finished
    }

    /// How the next read is to be carried out, or `None` once an error has
    /// ended the sequence.
    pub fn plan_next(&self) -> (r: Option<ReadPlan>)
        ensures
            r == if self.is_finished() {
                None
            } else {
                Some(plan_of(self.cf@.offset, self.lns, self.cf@.flen))
            },
    {
        if self.finished {
            None
        } else {
            Some(self.cf.plan_next(self.lns))
        }
    }

    /// Completes a read.  An empty handle ends the sequence (`None`) and
    /// leaves the offset; a handle with bytes moves the offset past them; an
    /// error is handed back once and ends the sequence for good.
    pub fn finish_next<E>(&mut self, read: Result<FileHandle, E>) -> (r: Option<
        Result<FileHandle, E>,
    >)
        requires
            read matches Ok(h) ==> old(self).cf@.offset + h@.len() <= u64::MAX,
        ensures
            final(self).lns == old(self).lns,
            final(self).cf@.flen == old(self).cf@.flen,
            final(self).cf.spec_file() == old(self).cf.spec_file(),
            match read {
                Ok(h) => if h@.len() == 0 {
                    &&& r is None
                    &&& final(self).cf@.offset == old(self).cf@.offset
                    &&& final(self).is_finished() == old(self).is_finished()
                } else {
                    &&& r == Some(read)
                    &&& final(self).cf@.offset == old(self).cf@.offset + h@.len()
                    &&& final(self).is_finished() == old(self).is_finished()
                },
                Err(_) => {
                    &&& r == Some(read)
                    &&& final(self).cf@.offset == old(self).cf@.offset
                    &&& final(self).is_finished()
                },
            },
    {
        match read {
            Ok(h) => {
                if h.is_empty() {
                    None
                } else {
                    Some(self.cf.finish_next(Ok(h)))
                }
            },
            Err(e) => {
                self.finished = true;
                Some(Err(e))
            },
        }
    }

    /// Bounds on the number of chunks left.
    pub fn size_hint(&self) -> (r: (usize, Option<usize>))
        ensures
            r == if self.is_finished() {
                (0usize, Some(0usize))
            } else {
                hint_of(self.cf@, self.lns)
            },
    {
        if self.finished {
            return (0, Some(0));
        }
        match (self.cf.file_len(), self.lns.bound) {
            (Some(l), Some(k)) => {
                if k == 0 {
                    (0, Some(0))
                } else {
                    let offset = self.cf.stream_position();
                    let rest: u64 = if offset <= l { l - offset } else { 0 };
                    let q: u64 = rest / (k as u64);
                    if (q as u128) < (usize::MAX as u128) {
                        (q as usize, Some(q as usize + 1))
                    } else {
                        (usize::MAX, None)
                    }
                }
            },
            _ => (0, None),
        }
    }

    /// Moves the underlying cursor; see [`ContinuableFile::seek`].
    pub fn seek(&mut self, pos: SeekFrom) -> (r: Result<u64, SeekOutOfRange>)
        ensures
            final(self).lns == old(self).lns,
            final(self).is_finished() == old(self).is_finished(),
            final(self).cf@.flen == old(self).cf@.flen,
            final(self).cf.spec_file() == old(self).cf.spec_file(),
            match seek_target(old(self).cf@.offset, old(self).cf@.flen, pos) {
                Some(y) => r == Ok::<u64, SeekOutOfRange>(y) && final(self).cf@.offset == y,
                None => r is Err && final(self).cf@.offset == old(self).cf@.offset,
            },
    {
        self.cf.seek(pos)
    }

    /// The offset of the underlying cursor.
    pub fn stream_position(&self) -> (r: u64)
        ensures
            r == self.cf@.offset,
    {
        self.cf.stream_position()
    }
}

} // verus!
