//! Bounded downloads in the helper: which files may be sent, and how their
//! bytes are cut into chunks.
use vstd::prelude::*;

use crate::helper::listing::FileStat;
use crate::helper::refusal::Refusal;
use crate::helper::types::{HelperDownloadChunk, HelperDownloadFile};
use crate::limits::MAX_CHUNK_SIZE;
use crate::protocol::frame::TransferId;

verus! {

/// What the entry's own metadata allows: no symlink, no directory, only a
/// regular file no larger than the helper's download limit.
pub open spec fn spec_download_stat_check(stat: FileStat, max_download_helper_bytes: usize) -> Option<Refusal> {
    if stat.is_symlink {
        Some(Refusal::SymlinkDownloadDenied)
    } else if stat.is_dir {
        Some(Refusal::DirectoryDownloadUnsupported)
    } else if !stat.is_file {
        Some(Refusal::DownloadNotRegularFile)
    } else if stat.len > max_download_helper_bytes {
        Some(Refusal::DownloadTooLarge)
    } else {
        None
    }
}

pub fn download_stat_check(stat: &FileStat, max_download_helper_bytes: usize) -> (r: Option<Refusal>)
    ensures
        r == spec_download_stat_check(*stat, max_download_helper_bytes),
{
    if stat.is_symlink {
        Some(Refusal::SymlinkDownloadDenied)
    } else if stat.is_dir {
        Some(Refusal::DirectoryDownloadUnsupported)
    } else if !stat.is_file {
        Some(Refusal::DownloadNotRegularFile)
    } else if stat.len > max_download_helper_bytes as u64 {
        Some(Refusal::DownloadTooLarge)
    } else {
        None
    }
}

/// The chunk size of a download: the requested size, at least 1 and at most
/// `MAX_CHUNK_SIZE`.
pub open spec fn spec_chunk_size(requested: usize) -> usize {
    if requested < 1 {
        1
    } else if requested > MAX_CHUNK_SIZE {
        MAX_CHUNK_SIZE
    } else {
        requested
    }
}

pub fn download_chunk_size(requested: usize) -> (size: usize)
    ensures
        size == spec_chunk_size(requested),
        1 <= size <= MAX_CHUNK_SIZE,
{
    if requested < 1 {
        1
    } else if requested > MAX_CHUNK_SIZE {
        MAX_CHUNK_SIZE
    } else {
        requested
    }
}

/// The bytes of the chunks, one after another.
pub open spec fn joined_chunks(chunks: Seq<HelperDownloadChunk>) -> Seq<u8>
    decreases chunks.len(),
{
    if chunks.len() == 0 {
        Seq::empty()
    } else {
        joined_chunks(chunks.drop_last()) + chunks.last().chunk_bytes@
    }
}

/// `chunks` cut `bytes` into pieces of `size`: numbered from 0, each at its
/// offset, each full but the last, none empty, together the bytes.
pub open spec fn chunked(chunks: Seq<HelperDownloadChunk>, bytes: Seq<u8>, size: nat) -> bool {
    &&& joined_chunks(chunks) == bytes
    &&& forall|i: int| 0 <= i < chunks.len() ==> {
        &&& (#[trigger] chunks[i]).chunk_index == i
        &&& chunks[i].offset == i * size
        &&& chunks[i].chunk_bytes@.len() > 0
        &&& (i < chunks.len() - 1 ==> chunks[i].chunk_bytes@.len() == size)
        &&& chunks[i].chunk_bytes@.len() <= size
    }
}

/// The number of chunks of `size` that `n` bytes need.
pub open spec fn chunk_count(n: nat, size: nat) -> nat
    recommends
        size > 0,
{
    if n == 0 {
        0
    } else {
        ((n - 1) as nat / size + 1) as nat
    }
}

fn copy_range(bytes: &[u8], from: usize, to: usize) -> (out: Vec<u8>)
    requires
        from <= to <= bytes@.len(),
    ensures
        out@ == bytes@.subrange(from as int, to as int),
{
    let mut out: Vec<u8> = Vec::new();
    let mut i = from;
    while i < to
        invariant
            from <= i <= to,
            to <= bytes@.len(),
            out@ == bytes@.subrange(from as int, i as int),
        decreases to - i,
    {
        out.push(bytes[i]);
        i = i + 1;
        assert(out@ =~= bytes@.subrange(from as int, i as int));
    }
    out
}

/// A download of `bytes` cut into chunks of `chunk_size`; `None` when that
/// takes more chunks than a `u32` can number.
pub fn chunk_download(bytes: &[u8], chunk_size: usize, total_bytes: u64, transfer_id: TransferId) -> (d: Option<
    HelperDownloadFile,
>)
    requires
        chunk_size > 0,
    ensures
        match d {
            None => bytes@.len() > (u32::MAX as nat) * chunk_size,
            Some(f) => bytes@.len() <= (u32::MAX as nat) * chunk_size && f.transfer_id == transfer_id
                && f.total_bytes == total_bytes && chunked(f.chunks@, bytes@, chunk_size as nat),
        },
{
    let n = bytes.len();
    let mut chunks: Vec<HelperDownloadChunk> = Vec::new();
    let mut offset: usize = 0;
    let mut index: u64 = 0;
    while offset < n
        invariant
            n == bytes@.len(),
            chunk_size > 0,
            offset <= n,
            index == chunks@.len(),
            index <= u32::MAX,
            offset == index * chunk_size,
            joined_chunks(chunks@) == bytes@.subrange(0, offset as int),
            forall|i: int| 0 <= i < chunks@.len() ==> {
                &&& (#[trigger] chunks@[i]).chunk_index == i
                &&& chunks@[i].offset == i * chunk_size
                &&& chunks@[i].chunk_bytes@.len() == chunk_size
            },
        decreases n - offset,
    {
        if index == u32::MAX as u64 {
            proof {
                assert(offset == (u32::MAX as nat) * chunk_size);
            }
            return None;
        }
        let end = if n - offset > chunk_size {
            offset + chunk_size
        } else {
            n
        };
        let piece = copy_range(bytes, offset, end);
        let ghost prev = chunks@;
        chunks.push(HelperDownloadChunk { chunk_index: index as u32, offset: offset as u64, chunk_bytes: piece });
        proof {
            assert(chunks@.drop_last() =~= prev);
            assert(joined_chunks(chunks@) =~= bytes@.subrange(0, end as int));
        }
        if end == n {
            proof {
                assert(bytes@.subrange(0, n as int) =~= bytes@);
                assert((index + 1) * chunk_size >= n) by (nonlinear_arith)
                    requires
                        index * chunk_size + chunk_size >= n,
                        chunk_size > 0,
                ;
                assert((index + 1) * chunk_size <= (u32::MAX as nat) * chunk_size) by (nonlinear_arith)
                    requires
                        index + 1 <= u32::MAX,
                        chunk_size > 0,
                ;
            }
            return Some(HelperDownloadFile { transfer_id, total_bytes, chunks });
        }
        offset = end;
        index = index + 1;
        assert(offset == index * chunk_size) by (nonlinear_arith)
            requires
                offset == (index - 1) * chunk_size + chunk_size,
        ;
    }
    assert(bytes@.subrange(0, n as int) =~= bytes@);
    assert(offset == n);
    assert(n <= (u32::MAX as nat) * chunk_size) by (nonlinear_arith)
        requires
            n == index * chunk_size,
            index <= u32::MAX,
            chunk_size > 0,
    ;
    Some(HelperDownloadFile { transfer_id, total_bytes, chunks })
}

} // verus!
