use readfilez::backend::finish_read_at_most;
use readfilez::cursor::{ChunkedFile, ContinuableFile, SeekFrom, SeekOutOfRange};
use readfilez::handle::FileHandle;
use readfilez::length::{LengthSpec, ReadPlan};

/// Carries out a plan over bytes held in memory, as a file would.
fn perform(data: &[u8], offset: u64, lns: LengthSpec, plan: ReadPlan) -> Result<FileHandle, String> {
    let start = (offset.min(data.len() as u64)) as usize;
    match plan {
        ReadPlan::Impossible => Err("length is too big".to_string()),
        ReadPlan::Bounded(0) => Ok(FileHandle::empty()),
        ReadPlan::Bounded(n) => {
            assert!(n <= 1 << 20);
            let avail = &data[start..];
            if lns.is_exact {
                if avail.len() < n {
                    return Err("failed to fill whole buffer".to_string());
                }
                Ok(FileHandle::from_vec(avail[..n].to_vec()))
            } else {
                let mut buf = vec![0u8; n];
                let count = n.min(avail.len());
                buf[..count].copy_from_slice(&avail[..count]);
                Ok(finish_read_at_most(buf, count))
            }
        }
        ReadPlan::Unknown => Ok(FileHandle::from_vec(data[start..].to_vec())),
    }
}

fn file_of(len: usize) -> Vec<u8> {
    (0..len).map(|i| (i * 7 + 3) as u8).collect()
}

fn read_next(cf: &mut ContinuableFile<Vec<u8>>, lns: LengthSpec) -> Result<FileHandle, String> {
    let plan = cf.plan_next(lns);
    let r = perform(cf.file(), cf.stream_position(), lns, plan);
    cf.finish_next(r)
}

fn chunk_next(ch: &mut ChunkedFile<Vec<u8>>) -> Option<Result<FileHandle, String>> {
    let plan = ch.plan_next()?;
    let r = perform(ch.cf.file(), ch.stream_position(), ch.lns, plan);
    ch.finish_next(r)
}

fn collect_chunks(data: &[u8], k: usize) -> Vec<Vec<u8>> {
    let cf = ContinuableFile::new(data.to_vec(), Some(data.len() as u64));
    let mut ch = cf.into_chunks(LengthSpec { bound: Some(k), is_exact: false });
    let mut out = Vec::new();
    while let Some(r) = chunk_next(&mut ch) {
        out.push(r.unwrap().as_slice().to_vec());
        assert!(out.len() <= data.len() + 1);
    }
    out
}

#[test]
fn new_cursor_starts_at_zero() {
    let cf = ContinuableFile::new(file_of(10), Some(10));
    assert_eq!(cf.stream_position(), 0);
    assert_eq!(cf.file_len(), Some(10));
    assert_eq!(cf.file().len(), 10);
}

#[test]
fn sync_len_replaces_the_cached_length() {
    let mut cf = ContinuableFile::new(file_of(10), None);
    assert_eq!(cf.file_len(), None);
    cf.sync_len(Some(10));
    assert_eq!(cf.file_len(), Some(10));
    assert_eq!(cf.stream_position(), 0);
}

#[test]
fn reads_advance_the_offset_by_their_length() {
    let data = file_of(10);
    let mut cf = ContinuableFile::new(data.clone(), Some(10));
    let h = read_next(&mut cf, LengthSpec { bound: Some(3), is_exact: true }).unwrap();
    assert_eq!(h.as_slice(), &data[0..3]);
    assert_eq!(cf.stream_position(), 3);
    let h = read_next(&mut cf, LengthSpec::default()).unwrap();
    assert_eq!(h.as_slice(), &data[3..]);
    assert_eq!(cf.stream_position(), 10);
}

#[test]
fn failed_read_leaves_the_offset() {
    let mut cf = ContinuableFile::new(file_of(10), Some(10));
    cf.seek(SeekFrom::Start(8)).unwrap();
    let r = read_next(&mut cf, LengthSpec { bound: Some(5), is_exact: true });
    assert!(r.is_err());
    assert_eq!(cf.stream_position(), 8);
}

#[test]
fn exact_read_past_end_of_unknown_length_fails() {
    let mut cf = ContinuableFile::new(file_of(10), None);
    cf.seek(SeekFrom::Start(8)).unwrap();
    let lns = LengthSpec { bound: Some(5), is_exact: true };
    assert_eq!(cf.plan_next(lns), ReadPlan::Bounded(5));
    assert!(read_next(&mut cf, lns).is_err());
    assert_eq!(cf.stream_position(), 8);
}

#[test]
fn loose_read_past_end_returns_the_rest() {
    let data = file_of(10);
    for known in [Some(10), None] {
        let mut cf = ContinuableFile::new(data.clone(), known);
        cf.seek(SeekFrom::Start(7)).unwrap();
        let h = read_next(&mut cf, LengthSpec { bound: Some(6), is_exact: false }).unwrap();
        assert_eq!(h.as_slice(), &data[7..]);
        assert_eq!(cf.stream_position(), 10);
    }
}

#[test]
fn whole_read_matches_the_file() {
    let data = file_of(10);
    for known in [Some(10), None] {
        for is_exact in [true, false] {
            let mut cf = ContinuableFile::new(data.clone(), known);
            let h = read_next(&mut cf, LengthSpec { bound: None, is_exact }).unwrap();
            assert_eq!(h.as_slice(), &data[..]);
        }
    }
}

#[test]
fn chunks_concatenate_to_the_whole_file() {
    let data = file_of(23);
    for k in 1..=30 {
        let joined: Vec<u8> = collect_chunks(&data, k).concat();
        assert_eq!(joined, data);
    }
}

#[test]
fn chunk_count_is_the_ceiling() {
    for len in [0usize, 1, 7, 8, 9, 16, 23] {
        let data = file_of(len);
        for k in 1..=10 {
            let chunks = collect_chunks(&data, k);
            assert_eq!(chunks.len(), (len + k - 1) / k);
            for (i, c) in chunks.iter().enumerate() {
                if i + 1 < chunks.len() {
                    assert_eq!(c.len(), k);
                } else if len % k == 0 {
                    assert_eq!(c.len(), k);
                } else {
                    assert_eq!(c.len(), len % k);
                }
            }
        }
    }
}

#[test]
fn ten_bytes_in_chunks_of_four() {
    let data = file_of(10);
    let chunks = collect_chunks(&data, 4);
    let lens: Vec<usize> = chunks.iter().map(|c| c.len()).collect();
    assert_eq!(lens, vec![4, 4, 2]);
    assert_eq!(chunks[0], &data[0..4]);
    assert_eq!(chunks[1], &data[4..8]);
    assert_eq!(chunks[2], &data[8..10]);
}

#[test]
fn empty_read_ends_the_sequence_without_moving() {
    let cf = ContinuableFile::new(file_of(4), Some(4));
    let mut ch = cf.into_chunks(LengthSpec { bound: Some(4), is_exact: false });
    assert!(chunk_next(&mut ch).unwrap().is_ok());
    assert!(chunk_next(&mut ch).is_none());
    assert_eq!(ch.stream_position(), 4);
    assert!(!ch.finished);
}

#[test]
fn error_ends_the_sequence_after_one_item() {
    let cf = ContinuableFile::new(file_of(10), Some(10));
    let mut ch = cf.into_chunks(LengthSpec { bound: Some(4), is_exact: true });
    assert_eq!(chunk_next(&mut ch).unwrap().unwrap().len(), 4);
    assert_eq!(chunk_next(&mut ch).unwrap().unwrap().len(), 4);
    assert!(chunk_next(&mut ch).unwrap().is_err());
    assert_eq!(ch.stream_position(), 8);
    assert!(ch.finished);
    assert_eq!(ch.plan_next(), None);
    assert!(chunk_next(&mut ch).is_none());
    assert_eq!(ch.size_hint(), (0, Some(0)));
}

#[test]
fn size_hint_counts_whole_chunks() {
    let cf = ContinuableFile::new(file_of(10), Some(10));
    let mut ch = cf.into_chunks(LengthSpec { bound: Some(4), is_exact: false });
    assert_eq!(ch.size_hint(), (2, Some(3)));
    chunk_next(&mut ch);
    assert_eq!(ch.size_hint(), (1, Some(2)));
    ch.seek(SeekFrom::Start(12)).unwrap();
    assert_eq!(ch.size_hint(), (0, Some(1)));
}

#[test]
fn size_hint_without_length_or_bound_is_open() {
    let ch = ContinuableFile::new(file_of(10), None).into_chunks(LengthSpec { bound: Some(4), is_exact: false });
    assert_eq!(ch.size_hint(), (0, None));
    let ch = ContinuableFile::new(file_of(10), Some(10)).into_chunks(LengthSpec::default());
    assert_eq!(ch.size_hint(), (0, None));
    let ch = ContinuableFile::new(file_of(10), Some(10)).into_chunks(LengthSpec { bound: Some(0), is_exact: false });
    assert_eq!(ch.size_hint(), (0, Some(0)));
}

#[test]
fn zero_bound_sequence_yields_nothing() {
    let chunks = collect_chunks(&file_of(10), 0);
    assert!(chunks.is_empty());
}

#[test]
fn seek_to_end_then_read_is_empty() {
    let mut cf = ContinuableFile::new(file_of(10), Some(10));
    assert_eq!(cf.seek(SeekFrom::End(0)), Ok(10));
    let h = read_next(&mut cf, LengthSpec { bound: Some(1), is_exact: false }).unwrap();
    assert!(h.is_empty());
    assert_eq!(cf.stream_position(), 10);
}

#[test]
fn seek_back_past_start_is_rejected() {
    let mut cf = ContinuableFile::new(file_of(10), Some(10));
    cf.seek(SeekFrom::Start(3)).unwrap();
    assert_eq!(cf.seek(SeekFrom::Current(-5)), Err(SeekOutOfRange));
    assert_eq!(cf.stream_position(), 3);
    assert_eq!(cf.seek(SeekFrom::End(-11)), Err(SeekOutOfRange));
    assert_eq!(cf.stream_position(), 3);
}

#[test]
fn seek_past_end_from_start_is_accepted() {
    let mut cf = ContinuableFile::new(file_of(10), Some(10));
    assert_eq!(cf.seek(SeekFrom::Start(20)), Ok(20));
    assert_eq!(cf.stream_position(), 20);
    let h = read_next(&mut cf, LengthSpec { bound: Some(4), is_exact: false }).unwrap();
    assert!(h.is_empty());
    assert_eq!(cf.stream_position(), 20);
}

#[test]
fn relative_seeks_stay_within_the_length() {
    let mut cf = ContinuableFile::new(file_of(10), Some(10));
    assert_eq!(cf.seek(SeekFrom::End(-3)), Ok(7));
    assert_eq!(cf.seek(SeekFrom::Current(-2)), Ok(5));
    assert_eq!(cf.seek(SeekFrom::Current(2)), Ok(7));
    assert_eq!(cf.seek(SeekFrom::Current(4)), Err(SeekOutOfRange));
    assert_eq!(cf.seek(SeekFrom::End(1)), Err(SeekOutOfRange));
    assert_eq!(cf.stream_position(), 7);
}

#[test]
fn seek_from_end_needs_a_known_length() {
    let mut cf = ContinuableFile::new(file_of(10), None);
    assert_eq!(cf.seek(SeekFrom::End(0)), Err(SeekOutOfRange));
    assert_eq!(cf.seek(SeekFrom::Current(40)), Ok(40));
    assert_eq!(cf.seek(SeekFrom::Current(i64::MIN)), Err(SeekOutOfRange));
    assert_eq!(cf.stream_position(), 40);
}
