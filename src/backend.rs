//! The buffered side of a read, and offset arithmetic.
use crate::handle::FileHandle;
use vstd::prelude::*;

verus! {

/// Completes a bounded read that need not be exact: `contents` was handed
/// to a single read, which reported `count` bytes.  A short count is
/// accepted as it is.
pub fn finish_read_at_most(contents: Vec<u8>, count: usize) -> (r: FileHandle)
    requires
        count <= contents.len(),
    ensures
        r@ == contents@.take(count as int),
        r is Buffered,
{
    let mut contents = contents;
    contents.truncate(count);
    FileHandle::from_vec(contents)
}

/// Whether a read to the end of input succeeds, given whether it was exact,
/// how many bytes it obtained, and whether the read failed part way.
pub open spec fn stream_succeeds(is_exact: bool, obtained: nat, failed: bool) -> bool {
    !failed || (!is_exact && obtained > 0)
}

/// Completes a read to the end of input: `contents` holds the bytes that
/// were obtained, `failure` the error that stopped the read, if any.  The
/// error is passed on when the read was exact or obtained nothing;
/// otherwise the partial contents are the result.
pub fn finish_read_to_end<E>(is_exact: bool, contents: Vec<u8>, failure: Option<E>) -> (r: Result<
    FileHandle,
    E,
>)
    ensures
        r is Ok <==> stream_succeeds(is_exact, contents@.len(), failure is Some),
        r matches Ok(h) ==> h@ == contents@ && h is Buffered,
        r matches Err(e) ==> failure == Some(e),
{
    match failure {
        Some(e) => {
            if is_exact || contents.len() == 0 {
                return Err(e);
            }
        },
        None => {},
    }
    Ok(FileHandle::from_vec(contents))
}

/// `offset + delta`, when it lies within the range of `u64`.
pub open spec fn offset_add(offset: u64, delta: i64) -> Option<u64> {
    let y = offset + delta;
    if 0 <= y <= u64::MAX {
        Some(y as u64)
    } else {
        None
    }
}

/// Adds a signed delta to an offset, failing on underflow and overflow.
pub fn do_offset_add(offset: u64, delta: i64) -> (r: Option<u64>)
    ensures
        r == offset_add(offset, delta),
{
    if delta < 0 {
        let magnitude: u64 = if delta == i64::MIN {
            0x8000_0000_0000_0000u64
        } else {
            (-delta) as u64
        };
        if magnitude <= offset {
            Some(offset - magnitude)
        } else {
            None
        }
    } else {
        offset.checked_add(delta as u64)
    }
}

} // verus!
