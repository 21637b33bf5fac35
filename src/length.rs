//! Length resolution: how many bytes a read may attempt, and how.
use vstd::prelude::*;

verus! {

/// What a read asks for.
#[derive(Clone, Copy, PartialEq, Eq, Hash, Debug)]
pub struct LengthSpec {
    /// `Some(n)`: read at most `n` bytes; `None`: read until the end of input.
    pub bound: Option<usize>,
    /// `true`: deliver the resolved length in full or fail;
    /// `false`: deliver the largest readable part up to the bound.
    pub is_exact: bool,
}

impl Default for LengthSpec {
    /// Reads as much as possible.
    fn default() -> (r: Self)
        ensures
            r.bound is None,
            !r.is_exact,
    {
        LengthSpec { bound: None, is_exact: false }
    }
}

/// How a read is to be carried out.
#[derive(Clone, Copy, PartialEq, Eq, Debug)]
pub enum ReadPlan {
    /// An exact length was asked for that cannot be delivered.
    Impossible,
    /// Read this many bytes: map them, or buffer them when mapping fails.
    Bounded(usize),
    /// The end is not known: stream to the end of input into a growable buffer.
    Unknown,
}

/// The largest number of bytes a mapping may span.
pub open spec fn max_map_len() -> nat {
    isize::MAX as nat
}

/// The bytes of the file past `offset`, when its length is known
/// (none when `offset` lies beyond the end).
pub open spec fn remaining(offset: u64, flen: Option<u64>) -> Option<nat> {
    match flen {
        Some(l) => Some(if offset <= l { (l - offset) as nat } else { 0 }),
        None => None,
    }
}

/// Whether the file length, rather than the mapping ceiling, limits a read.
pub open spec fn limited_by_file(offset: u64, flen: Option<u64>) -> bool {
    match remaining(offset, flen) {
        Some(r) => r < max_map_len(),
        None => false,
    }
}

/// The most bytes a read at `offset` may attempt.
pub open spec fn read_limit(offset: u64, flen: Option<u64>) -> nat {
    if limited_by_file(offset, flen) {
        remaining(offset, flen)->0
    } else {
        max_map_len()
    }
}

/// The plan for a read at `offset` of a file whose length may be known.
pub open spec fn plan_of(offset: u64, lenspec: LengthSpec, flen: Option<u64>) -> ReadPlan {
    let limit = read_limit(offset, flen);
    match lenspec.bound {
        Some(n) => if n <= limit {
            ReadPlan::Bounded(n)
        } else if lenspec.is_exact {
            ReadPlan::Impossible
        } else {
            ReadPlan::Bounded(limit as usize)
        },
        None => if limited_by_file(offset, flen) {
            ReadPlan::Bounded(limit as usize)
        } else {
            ReadPlan::Unknown
        },
    }
}

/// Decides how a read of `lenspec` at `offset` is carried out, given the
/// file length when it is known.
pub fn plan_read(offset: u64, lenspec: LengthSpec, flen: Option<u64>) -> (r: ReadPlan)
    ensures
        r == plan_of(offset, lenspec, flen),
{
    let ceiling: usize = isize::MAX as usize;
    let limit: usize;
    let by_file: bool;
    match flen {
        Some(l) => {
            let rest: u64 = if offset <= l { l - offset } else { 0 };
            if (rest as u128) < (ceiling as u128) {
                limit = rest as usize;
                by_file = true;
            } else {
                limit = ceiling;
                by_file = false;
            }
        },
        None => {
            limit = ceiling;
            by_file = false;
        },
    }
    assert(limit == read_limit(offset, flen));
    assert(by_file == limited_by_file(offset, flen));
    match lenspec.bound {
        Some(n) => if n <= limit {
            ReadPlan::Bounded(n)
        } else if lenspec.is_exact {
            ReadPlan::Impossible
        } else {
            ReadPlan::Bounded(limit)
        },
        None => if by_file {
            ReadPlan::Bounded(limit)
        } else {
            ReadPlan::Unknown
        },
    }
}

} // verus!
