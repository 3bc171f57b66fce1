use vstd::prelude::*;

use crate::buffer::Buffer;
use crate::error::RendererError;

verus! {

/// One region of a buffer-to-buffer copy.
#[derive(Clone, Copy, Debug, PartialEq, Eq, Structural)]
pub struct BufferCopy {
    pub src_offset: u64,
    pub dst_offset: u64,
    pub size: u64,
}

/// `bytes` written at the start of `memory`, the rest left as it was.
pub open spec fn staged(memory: Seq<u8>, bytes: Seq<u8>) -> Seq<u8> {
    bytes + memory.subrange(bytes.len() as int, memory.len() as int)
}

/// `dst` after the region of `src` described by `region` was copied into it.
pub open spec fn copied(src: Seq<u8>, dst: Seq<u8>, region: BufferCopy) -> Seq<u8> {
    let lo = region.dst_offset as int;
    let hi = lo + region.size;
    dst.subrange(0, lo) + src.subrange(region.src_offset as int, region.src_offset + region.size)
        + dst.subrange(hi, dst.len() as int)
}

pub open spec fn region_fits(src_len: int, dst_len: int, region: BufferCopy) -> bool {
    region.src_offset + region.size <= src_len && region.dst_offset + region.size <= dst_len
}

/// The single region that carries `len` bytes from the start of the staging buffer to
/// the start of the destination.
pub open spec fn full_region(len: u64) -> BufferCopy {
    BufferCopy { src_offset: 0, dst_offset: 0, size: len }
}

/// The copy region of an upload of `len` bytes, or `BufferTooSmall` when either buffer
/// cannot hold them.
pub fn upload_region(staging: &Buffer, destination: &Buffer, len: u64) -> (r: Result<BufferCopy, RendererError>)
    ensures
        len <= staging.size && len <= destination.size ==> r == Ok::<BufferCopy, RendererError>(full_region(len)),
        !(len <= staging.size && len <= destination.size) ==> r == Err::<BufferCopy, RendererError>(
            RendererError::BufferTooSmall,
        ),
{
    if len <= staging.size && len <= destination.size {
        Ok(BufferCopy { src_offset: 0, dst_offset: 0, size: len })
    } else {
        Err(RendererError::BufferTooSmall)
    }
}

/// Writes `bytes` to the start of a mapped staging region.
pub fn write_staging(mapped: &mut [u8], bytes: &[u8])
    requires
        bytes@.len() <= old(mapped)@.len(),
    ensures
        final(mapped)@ == staged(old(mapped)@, bytes@),
{
    let ghost before = mapped@;
    let mut i: usize = 0;
    while i < bytes.len()
        invariant
            i <= bytes@.len() <= mapped@.len(),
            mapped@.len() == before.len(),
            forall|j: int| 0 <= j < i ==> mapped@[j] == bytes@[j],
            forall|j: int| i <= j < mapped@.len() ==> mapped@[j] == before[j],
        decreases bytes@.len() - i,
    {
        mapped[i] = bytes[i];
        i += 1;
    }
    assert(mapped@ =~= staged(before, bytes@));
}

/// Copies one region between two host-visible buffers, as a device copy command does.
pub fn copy_buffer(src: &[u8], dst: &mut [u8], region: BufferCopy)
    requires
        region_fits(src@.len() as int, old(dst)@.len() as int, region),
    ensures
        final(dst)@ == copied(src@, old(dst)@, region),
{
    let ghost before = dst@;
    let src_len = src.len();
    let dst_len = dst.len();
    let mut k: u64 = 0;
    while k < region.size
        invariant
            region_fits(src@.len() as int, dst@.len() as int, region),
            src_len == src@.len(),
            dst_len == dst@.len(),
            dst@.len() == before.len(),
            k <= region.size,
            forall|j: int| 0 <= j < region.dst_offset ==> dst@[j] == before[j],
            forall|j: int|
                region.dst_offset <= j < region.dst_offset + k ==> #[trigger] dst@[j] == src@[j
                    - region.dst_offset + region.src_offset],
            forall|j: int| region.dst_offset + k <= j < dst@.len() ==> dst@[j] == before[j],
        decreases region.size - k,
    {
        let s = (region.src_offset + k) as usize;
        let d = (region.dst_offset + k) as usize;
        dst[d] = src[s];
        k += 1;
    }
    let ghost want = copied(src@, before, region);
    assert forall|j: int| 0 <= j < dst@.len() implies dst@[j] == want[j] by {}
    assert(dst@ =~= want);
}

/// The first `len` bytes of a host-visible mirror.
pub fn read_back(mirror: &[u8], len: usize) -> (r: Vec<u8>)
    requires
        len <= mirror@.len(),
    ensures
        r@ == mirror@.subrange(0, len as int),
{
    let mut out: Vec<u8> = Vec::new();
    let mut i: usize = 0;
    while i < len
        invariant
            i <= len <= mirror@.len(),
            out@ == mirror@.subrange(0, i as int),
        decreases len - i,
    {
        out.push(mirror[i]);
        i += 1;
        assert(out@ =~= mirror@.subrange(0, i as int));
    }
    out
}

/// Uploading `bytes` through a staging buffer and copying the destination back into a
/// host-visible mirror yields exactly `bytes`.
pub proof fn lemma_upload_round_trip(
    staging: Seq<u8>,
    destination: Seq<u8>,
    mirror: Seq<u8>,
    bytes: Seq<u8>,
)
    requires
        bytes.len() <= staging.len(),
        bytes.len() <= destination.len(),
        bytes.len() <= mirror.len(),
        bytes.len() <= u64::MAX,
    ensures
        ({
            let region = full_region(bytes.len() as u64);
            let on_device = copied(staged(staging, bytes), destination, region);
            let read = copied(on_device, mirror, region);
            read.subrange(0, bytes.len() as int) == bytes
        }),
{
    let region = full_region(bytes.len() as u64);
    let s = staged(staging, bytes);
    let on_device = copied(s, destination, region);
    let read = copied(on_device, mirror, region);
    assert(s.subrange(0, bytes.len() as int) =~= bytes);
    assert(on_device.subrange(0, bytes.len() as int) =~= bytes);
    assert(read.subrange(0, bytes.len() as int) =~= bytes);
}

/// Whether the staging buffer is free or still read by a submitted copy.
#[derive(Clone, Copy, Debug, PartialEq, Eq, Structural)]
pub enum StagingState {
    Free,
    /// A copy of this region was submitted and its fence has not been seen to signal.
    InUse(BufferCopy),
}

/// Guards the staging buffer: its contents are not overwritten for a second transfer
/// until the one-shot fence of the first has signaled.
pub struct TransferPipeline {
    pub staging: Buffer,
    pub state: StagingState,
}

impl TransferPipeline {
    pub fn new(staging: Buffer) -> (r: TransferPipeline)
        ensures
            r.staging == staging,
            r.state == StagingState::Free,
    {
        TransferPipeline { staging, state: StagingState::Free }
    }

    /// Starts an upload of `len` bytes into `destination`: fails with `StagingBusy`
    /// while an earlier copy is pending, with `BufferTooSmall` when a buffer cannot
    /// hold the bytes; otherwise marks the staging buffer in use and returns the region.
    pub fn upload(&mut self, destination: &Buffer, len: u64) -> (r: Result<BufferCopy, RendererError>)
        ensures
            final(self).staging == old(self).staging,
            old(self).state != StagingState::Free ==> r == Err::<BufferCopy, RendererError>(
                RendererError::StagingBusy,
            ) && final(self).state == old(self).state,
            old(self).state == StagingState::Free ==> r == upload_region_spec(
                old(self).staging,
                *destination,
                len,
            ),
            old(self).state == StagingState::Free ==> match r {
                Ok(region) => final(self).state == StagingState::InUse(region),
                Err(_) => final(self).state == StagingState::Free,
            },
    {
        match self.state {
            StagingState::InUse(_) => Err(RendererError::StagingBusy),
            StagingState::Free => {
                let r = upload_region(&self.staging, destination, len);
                match r {
                    Ok(region) => {
                        self.state = StagingState::InUse(region);
                    },
                    Err(_) => {},
                }
                r
            },
        }
    }

    /// The one-shot fence of the pending copy has signaled: the destination is fully
    /// written and the staging buffer may be reused.
    pub fn transfer_complete(&mut self)
        ensures
            final(self).staging == old(self).staging,
            final(self).state == StagingState::Free,
    {
        self.state = StagingState::Free;
    }
}

pub open spec fn upload_region_spec(staging: Buffer, destination: Buffer, len: u64) -> Result<BufferCopy, RendererError> {
    if len <= staging.size && len <= destination.size {
        Ok(full_region(len))
    } else {
        Err(RendererError::BufferTooSmall)
    }
}

} // verus!
