//! What reads, seeks and chunked sequences yield over a file whose contents
//! are `data`, stated and proved over the plans the library makes.
//!
//! A read is modelled as the backend delivering everything the file holds in
//! the planned range: a mapping of the planned bytes, or a buffered read that
//! is not cut short.  An exact read that reaches past the end fails.
use crate::cursor::{seek_target, SeekFrom};
use crate::length::{max_map_len, plan_of, LengthSpec, ReadPlan};
use vstd::arithmetic::div_mod::{lemma_basic_div, lemma_div_plus_one, lemma_mod_self_0, lemma_mod_sub_multiples_vanish, lemma_small_div_converse,
    lemma_small_mod,
};
use vstd::prelude::*;

verus! {

/// Where a read at `offset` starts in `data`: past the end, at the end.
pub open spec fn start_of(data: Seq<u8>, offset: u64) -> int {
    if offset <= data.len() {
        offset as int
    } else {
        data.len() as int
    }
}

/// Every byte of `data` from `offset` to the end.
pub open spec fn rest_of(data: Seq<u8>, offset: u64) -> Seq<u8> {
    data.subrange(start_of(data, offset), data.len() as int)
}

/// The contents a read of `lenspec` at `offset` yields from a file holding
/// `data`, with the file length cached as `flen`; `None` when it fails.
pub open spec fn read_outcome(data: Seq<u8>, offset: u64, lenspec: LengthSpec, flen: Option<u64>) -> Option<Seq<u8>> {
    let start = start_of(data, offset);
    match plan_of(offset, lenspec, flen) {
        ReadPlan::Impossible => None,
        ReadPlan::Bounded(n) => if start + n <= data.len() {
            Some(data.subrange(start, start + n))
        } else if lenspec.is_exact {
            None
        } else {
            Some(rest_of(data, offset))
        },
        ReadPlan::Unknown => Some(rest_of(data, offset)),
    }
}

/// The file length as the cursor caches it: known, or not.
pub open spec fn cached_len(data: Seq<u8>, known: bool) -> Option<u64> {
    if known {
        Some(data.len() as u64)
    } else {
        None
    }
}

/// An exact bounded read that fits in what is left of the file yields
/// exactly the requested bytes.
pub proof fn exact_read_within_file(data: Seq<u8>, offset: u64, n: usize, known: bool)
    requires
        data.len() <= u64::MAX,
        offset + n <= data.len(),
        n <= max_map_len(),
    ensures
        read_outcome(data, offset, LengthSpec { bound: Some(n), is_exact: true }, cached_len(data, known))
            == Some(data.subrange(offset as int, offset + n)),
{
}

/// An exact bounded read that asks for more than is left of the file fails,
/// and yields nothing.  With the length known it is refused before any I/O.
pub proof fn exact_read_past_end(data: Seq<u8>, offset: u64, n: usize, known: bool)
    requires
        data.len() <= u64::MAX,
        offset <= data.len(),
        offset + n > data.len(),
    ensures
        read_outcome(data, offset, LengthSpec { bound: Some(n), is_exact: true }, cached_len(data, known)) is None,
        known ==> plan_of(offset, LengthSpec { bound: Some(n), is_exact: true }, cached_len(data, known))
            == ReadPlan::Impossible,
{
}

/// A bounded read that need not be exact and asks for more than is left of
/// the file succeeds with exactly the rest of the file.
pub proof fn loose_read_past_end(data: Seq<u8>, offset: u64, n: usize, known: bool)
    requires
        data.len() <= u64::MAX,
        offset <= data.len(),
        offset + n > data.len(),
        data.len() - offset <= max_map_len(),
    ensures
        read_outcome(data, offset, LengthSpec { bound: Some(n), is_exact: false }, cached_len(data, known))
            == Some(rest_of(data, offset)),
{
}

/// An unbounded read, exact or not, yields every byte from the offset to the
/// end of the file.
pub proof fn unbounded_read_is_whole(data: Seq<u8>, offset: u64, is_exact: bool, known: bool)
    requires
        data.len() <= u64::MAX,
    ensures
        read_outcome(data, offset, LengthSpec { bound: None, is_exact }, cached_len(data, known))
            == Some(rest_of(data, offset)),
{
}

/// After a seek to the end, a read of one byte that need not be exact
/// yields an empty handle.
pub proof fn seek_to_end_then_read(data: Seq<u8>, offset: u64)
    requires
        data.len() <= u64::MAX,
    ensures
        seek_target(offset, Some(data.len() as u64), SeekFrom::End(0)) == Some(data.len() as u64),
        read_outcome(
            data,
            data.len() as u64,
            LengthSpec { bound: Some(1), is_exact: false },
            Some(data.len() as u64),
        ) == Some(Seq::<u8>::empty()),
{
}

/// A relative seek back past the start is rejected.
pub proof fn seek_before_start(offset: u64, flen: Option<u64>, delta: i64)
    requires
        delta < 0,
        -delta > offset,
    ensures
        seek_target(offset, flen, SeekFrom::Current(delta)) is None,
{
}

/// An absolute seek past the end is accepted, and a read there that need not
/// be exact yields an empty handle.
pub proof fn seek_past_end_then_read(data: Seq<u8>, offset: u64, x: u64, bound: Option<usize>)
    requires
        data.len() <= u64::MAX,
        x > data.len(),
    ensures
        seek_target(offset, Some(data.len() as u64), SeekFrom::Start(x)) == Some(x),
        read_outcome(data, x, LengthSpec { bound, is_exact: false }, Some(data.len() as u64))
            == Some(Seq::<u8>::empty()),
{
}

/// The contents of the handles that a chunked sequence of `lenspec` yields
/// over a file holding `data`, from `offset` on, with the file length
/// cached: up to the first empty read or the first failure.
pub open spec fn chunk_contents(data: Seq<u8>, offset: u64, lenspec: LengthSpec) -> Seq<Seq<u8>>
    decreases data.len() - offset,
{
    match read_outcome(data, offset, lenspec, Some(data.len() as u64)) {
        Some(c) => if 0 < c.len() && offset + c.len() <= data.len() {
            seq![c] + chunk_contents(data, (offset + c.len()) as u64, lenspec)
        } else {
            Seq::empty()
        },
        None => Seq::empty(),
    }
}

/// A chunked sequence with bound `k` that need not be exact yields
/// `ceil(rest / k)` handles, where `rest` is what is left of the file: all
/// of `k` bytes but the last, which holds `rest mod k` bytes, or `k` when
/// `k` divides `rest`.
pub proof fn chunk_count_and_sizes(data: Seq<u8>, offset: u64, k: usize)
    requires
        data.len() <= u64::MAX,
        offset <= data.len(),
        1 <= k <= max_map_len(),
    ensures
        ({
            let cs = chunk_contents(data, offset, LengthSpec { bound: Some(k), is_exact: false });
            let rest = data.len() - offset;
            &&& cs.len() == (rest + k - 1) / (k as int)
            &&& forall|i: int| 0 <= i < cs.len() - 1 ==> #[trigger] cs[i].len() == k
            &&& cs.len() > 0 ==> cs.last().len() == if rest % (k as int) == 0 {
                k as int
            } else {
                rest % (k as int)
            }
        }),
    decreases data.len() - offset,
{
    let lenspec = LengthSpec { bound: Some(k), is_exact: false };
    let rest: int = data.len() - offset;
    let ki = k as int;
    let cs = chunk_contents(data, offset, lenspec);
    if rest == 0 {
        assert(cs.len() == 0);
        lemma_basic_div(ki - 1, ki);
    } else if ki <= rest {
        let next = (offset + k) as u64;
        chunk_count_and_sizes(data, next, k);
        let tail = chunk_contents(data, next, lenspec);
        assert(cs == seq![data.subrange(offset as int, offset + ki)] + tail);
        lemma_div_plus_one(rest - 1, ki);
        lemma_mod_sub_multiples_vanish(rest, ki);
        if tail.len() == 0 {
            assert((rest - 1) / ki == 0);
            lemma_small_div_converse(rest - 1, ki);
            lemma_mod_self_0(ki);
        }
        assert forall|i: int| 0 <= i < cs.len() - 1 implies #[trigger] cs[i].len() == k by {
            if i > 0 {
                assert(cs[i] == tail[i - 1]);
            }
        }
    } else {
        let next = data.len() as u64;
        let tail = chunk_contents(data, next, lenspec);
        assert(tail.len() == 0);
        assert(cs == seq![rest_of(data, offset)]);
        lemma_div_plus_one(rest - 1, ki);
        lemma_basic_div(rest - 1, ki);
        lemma_small_mod(rest as nat, ki as nat);
    }
}

/// Concatenating the handles of a chunked sequence with any bound `k >= 1`
/// that need not be exact gives the same bytes as one unbounded read.
pub proof fn chunks_concatenate_to_whole(data: Seq<u8>, offset: u64, k: usize, is_exact: bool, known: bool)
    requires
        data.len() <= u64::MAX,
        offset <= data.len(),
        k >= 1,
    ensures
        Some(chunk_contents(data, offset, LengthSpec { bound: Some(k), is_exact: false }).flatten())
            == read_outcome(data, offset, LengthSpec { bound: None, is_exact }, cached_len(data, known)),
    decreases data.len() - offset,
{
    let lenspec = LengthSpec { bound: Some(k), is_exact: false };
    let cs = chunk_contents(data, offset, lenspec);
    unbounded_read_is_whole(data, offset, is_exact, known);
    if offset == data.len() {
        assert(cs.len() == 0);
        assert(rest_of(data, offset) =~= Seq::<u8>::empty());
    } else {
        let c = read_outcome(data, offset, lenspec, Some(data.len() as u64))->0;
        let next = (offset + c.len()) as u64;
        chunks_concatenate_to_whole(data, next, k, is_exact, known);
        let tail = chunk_contents(data, next, lenspec);
        assert(cs == seq![c] + tail);
        assert(cs.drop_first() =~= tail);
        assert(cs.flatten() == c + tail.flatten());
        assert(c + rest_of(data, next) =~= rest_of(data, offset));
    }
}

} // verus!
