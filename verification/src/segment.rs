use crate::error::DataError;
use vstd::prelude::*;
use vstd::slice::{slice_subrange, slice_to_vec};

verus! {

/// The size of the block of sector metadata that interrupts a region at its partition.
pub const DISK_SECTOR_METADATA_BLOCKSIZE: u64 = 0x130;

/// The `length` bytes of `data` that start at `byte_offset`, if all of them lie inside `data`.
pub open spec fn linear_read(data: Seq<u8>, byte_offset: int, length: int) -> Option<Seq<u8>> {
    if 0 <= byte_offset && 0 <= length && byte_offset + length <= data.len() {
        Some(data.subrange(byte_offset, byte_offset + length))
    } else {
        None
    }
}

/// `data` as the records of a region address it: with the block of sector metadata that
/// starts at `partition_start`, if there is one, cut out. The bytes behind the block move
/// down by its size.
pub open spec fn region_bytes(data: Seq<u8>, partition_start: Option<u64>) -> Seq<u8> {
    match partition_start {
        None => data,
        Some(partition) => if data.len() <= partition {
            data
        } else if data.len() <= partition + DISK_SECTOR_METADATA_BLOCKSIZE {
            data.subrange(0, partition as int)
        } else {
            data.subrange(0, partition as int) + data.subrange(
                partition + DISK_SECTOR_METADATA_BLOCKSIZE,
                data.len() as int,
            )
        },
    }
}

/// The `length` bytes that start at `byte_offset`, read past the block of sector metadata.
pub open spec fn segmented_read(
    data: Seq<u8>,
    partition_start: Option<u64>,
    byte_offset: int,
    length: int,
) -> Option<Seq<u8>> {
    linear_read(region_bytes(data, partition_start), byte_offset, length)
}

/// `first` followed by `second`, if both are there.
pub open spec fn joined(first: Option<Seq<u8>>, second: Option<Seq<u8>>) -> Option<Seq<u8>> {
    match (first, second) {
        (Some(head), Some(tail)) => Some(head + tail),
        _ => None,
    }
}

/// Without a partition a read is linear.
pub proof fn lemma_read_without_partition(data: Seq<u8>, byte_offset: int, length: int)
    ensures
        segmented_read(data, None, byte_offset, length) == linear_read(data, byte_offset, length),
{
}

/// A read that ends at or before the partition is linear, at the same offset.
pub proof fn lemma_read_before_partition(
    data: Seq<u8>,
    partition: u64,
    byte_offset: int,
    length: int,
)
    requires
        0 <= byte_offset,
        0 <= length,
        byte_offset + length <= partition,
    ensures
        segmented_read(data, Some(partition), byte_offset, length) == linear_read(
            data,
            byte_offset,
            length,
        ),
{
    let region = region_bytes(data, Some(partition));
    if byte_offset + length <= data.len() {
        assert(region.subrange(byte_offset, byte_offset + length) =~= data.subrange(
            byte_offset,
            byte_offset + length,
        ));
    }
}

/// A read that starts at or behind the partition is linear, the size of the block of sector
/// metadata further on. The empty read at the partition itself ends at the partition, so it
/// is a read before it: it is left out where it would differ, which is where the file ends
/// inside the block.
pub proof fn lemma_read_after_partition(
    data: Seq<u8>,
    partition: u64,
    byte_offset: int,
    length: int,
)
    requires
        partition <= byte_offset,
        0 <= length,
        !(byte_offset == partition && length == 0 && partition <= data.len() < partition
            + DISK_SECTOR_METADATA_BLOCKSIZE),
    ensures
        segmented_read(data, Some(partition), byte_offset, length) == linear_read(
            data,
            byte_offset + DISK_SECTOR_METADATA_BLOCKSIZE,
            length,
        ),
{
    let region = region_bytes(data, Some(partition));
    let shifted = byte_offset + DISK_SECTOR_METADATA_BLOCKSIZE;
    if shifted + length <= data.len() {
        assert(region.subrange(byte_offset, byte_offset + length) =~= data.subrange(
            shifted,
            shifted + length,
        ));
    }
}

/// A read that starts before the partition and ends behind it is the bytes up to the
/// partition, followed by the bytes behind the block of sector metadata.
pub proof fn lemma_read_across_partition(
    data: Seq<u8>,
    partition: u64,
    byte_offset: int,
    length: int,
)
    requires
        0 <= byte_offset < partition < byte_offset + length,
    ensures
        segmented_read(data, Some(partition), byte_offset, length) == joined(
            linear_read(data, byte_offset, partition - byte_offset),
            linear_read(
                data,
                partition + DISK_SECTOR_METADATA_BLOCKSIZE,
                length - (partition - byte_offset),
            ),
        ),
{
    let region = region_bytes(data, Some(partition));
    let behind = partition + DISK_SECTOR_METADATA_BLOCKSIZE;
    let rest = length - (partition - byte_offset);
    if behind + rest <= data.len() {
        assert(region.subrange(byte_offset, byte_offset + length) =~= data.subrange(
            byte_offset,
            partition as int,
        ) + data.subrange(behind, behind + rest));
    }
}

/// A slice holds no more bytes than a `u64` counts.
proof fn lemma_slice_size(data: &[u8])
    ensures
        data@.len() <= u64::MAX,
{
    assert(data@.len() == data.len());
}

/// Reads `length` bytes of `data` from `byte_offset` on. A read that does not lie inside
/// `data` fails: nothing is padded.
pub fn read_bytes_linear(data: &[u8], byte_offset: u64, length: u64) -> (read: Result<
    Vec<u8>,
    DataError,
>)
    ensures
        match linear_read(data@, byte_offset as int, length as int) {
            Some(bytes) => read matches Ok(buffer) && buffer@ == bytes,
            None => read matches Err(error) && error == DataError::Io,
        },
{
    let size = data.len();
    if byte_offset > size as u64 || length > size as u64 - byte_offset {
        return Err(DataError::Io);
    }
    let start = byte_offset as usize;
    let end = start + length as usize;
    Ok(slice_to_vec(slice_subrange(data, start, end)))
}

/// Reads `length` bytes from `byte_offset` on, of which the first lie before the block of
/// sector metadata that starts at `partition_start` and the others behind it.
pub fn read_around_sector_partition(
    data: &[u8],
    partition_start: u64,
    byte_offset: u64,
    length: u64,
) -> (read: Result<Vec<u8>, DataError>)
    requires
        byte_offset <= partition_start,
        partition_start - byte_offset <= length,
    ensures
        match joined(
            linear_read(data@, byte_offset as int, partition_start - byte_offset),
            linear_read(
                data@,
                partition_start + DISK_SECTOR_METADATA_BLOCKSIZE,
                length - (partition_start - byte_offset),
            ),
        ) {
            Some(bytes) => read matches Ok(buffer) && buffer@ == bytes,
            None => read matches Err(error) && error == DataError::Io,
        },
{
    proof {
        lemma_slice_size(data);
    }
    let partition_point = partition_start - byte_offset;
    let partition_end = match partition_start.checked_add(DISK_SECTOR_METADATA_BLOCKSIZE) {
        Some(end) => end,
        None => {
            return Err(DataError::Io);
        },
    };
    let mut first_buffer = match read_bytes_linear(data, byte_offset, partition_point) {
        Ok(buffer) => buffer,
        Err(error) => {
            return Err(error);
        },
    };
    let mut second_buffer = match read_bytes_linear(data, partition_end, length - partition_point) {
        Ok(buffer) => buffer,
        Err(error) => {
            return Err(error);
        },
    };
    first_buffer.append(&mut second_buffer);
    Ok(first_buffer)
}

/// Reads `length` bytes of a region that starts at `disc_offset`, from `local_offset` in it
/// on. Where the region has a partition, the block of sector metadata that starts there is
/// skipped, also in the middle of the read.
pub fn read_bytes(
    data: &[u8],
    partition_start: Option<u64>,
    disc_offset: u64,
    local_offset: u64,
    length: u64,
) -> (read: Result<Vec<u8>, DataError>)
    ensures
        match segmented_read(data@, partition_start, disc_offset + local_offset, length as int) {
            Some(bytes) => read matches Ok(buffer) && buffer@ == bytes,
            None => read matches Err(error) && error == DataError::Io,
        },
{
    proof {
        lemma_slice_size(data);
    }
    let byte_offset = match disc_offset.checked_add(local_offset) {
        Some(offset) => offset,
        None => {
            return Err(DataError::Io);
        },
    };
    if let Some(partition) = partition_start {
        let end = match byte_offset.checked_add(length) {
            Some(end) => end,
            None => {
                return Err(DataError::Io);
            },
        };
        if end <= partition {
            // We're before the partition, so handle normally
            proof {
                lemma_read_before_partition(data@, partition, byte_offset as int, length as int);
            }
            read_bytes_linear(data, byte_offset, length)
        } else if byte_offset >= partition {
            // We're after the partition, so shift by the partition size
            proof {
                lemma_read_after_partition(data@, partition, byte_offset as int, length as int);
            }
            match byte_offset.checked_add(DISK_SECTOR_METADATA_BLOCKSIZE) {
                Some(shifted) => read_bytes_linear(data, shifted, length),
                None => Err(DataError::Io),
            }
        } else {
            // We're bridging the partition
            proof {
                lemma_read_across_partition(data@, partition, byte_offset as int, length as int);
            }
            read_around_sector_partition(data, partition, byte_offset, length)
        }
    } else {
        read_bytes_linear(data, byte_offset, length)
    }
}

/// A run of bytes of the file.
#[derive(Copy, Clone, Debug, PartialEq, Eq, Structural)]
pub struct ByteRange {
    pub offset: u64,
    pub length: u64,
}

/// The runs of bytes that make up one read, in the order in which they are read and joined.
#[derive(Copy, Clone, Debug, PartialEq, Eq, Structural)]
pub struct ReadPlan {
    pub first: ByteRange,
    pub second: Option<ByteRange>,
}

impl ByteRange {
    /// The bytes of this run in `data`.
    pub open spec fn read_from(self, data: Seq<u8>) -> Option<Seq<u8>> {
        linear_read(data, self.offset as int, self.length as int)
    }
}

impl ReadPlan {
    /// The bytes of the runs of this plan in `data`, joined.
    pub open spec fn read_from(self, data: Seq<u8>) -> Option<Seq<u8>> {
        match self.second {
            None => self.first.read_from(data),
            Some(second) => joined(self.first.read_from(data), second.read_from(data)),
        }
    }
}

/// Where in the file the last byte of a read ends.
pub open spec fn read_extent(partition_start: Option<u64>, byte_offset: int, length: int) -> int {
    match partition_start {
        Some(partition) if byte_offset + length > partition => byte_offset + length
            + DISK_SECTOR_METADATA_BLOCKSIZE,
        _ => byte_offset + length,
    }
}

/// The runs of the file that a read of `length` bytes from `byte_offset` on is made of.
pub open spec fn planned_read(
    partition_start: Option<u64>,
    byte_offset: int,
    length: int,
) -> ReadPlan {
    match partition_start {
        Some(partition) if byte_offset + length > partition => if byte_offset >= partition {
            ReadPlan {
                first: ByteRange {
                    offset: (byte_offset + DISK_SECTOR_METADATA_BLOCKSIZE) as u64,
                    length: length as u64,
                },
                second: None,
            }
        } else {
            ReadPlan {
                first: ByteRange {
                    offset: byte_offset as u64,
                    length: (partition - byte_offset) as u64,
                },
                second: Some(
                    ByteRange {
                        offset: (partition + DISK_SECTOR_METADATA_BLOCKSIZE) as u64,
                        length: (byte_offset + length - partition) as u64,
                    },
                ),
            }
        },
        _ => ReadPlan {
            first: ByteRange { offset: byte_offset as u64, length: length as u64 },
            second: None,
        },
    }
}

/// Reading the planned runs in order, and joining them, is the read past the block of sector
/// metadata.
pub proof fn lemma_planned_read(
    data: Seq<u8>,
    partition_start: Option<u64>,
    byte_offset: int,
    length: int,
)
    requires
        0 <= byte_offset,
        0 <= length,
        read_extent(partition_start, byte_offset, length) <= u64::MAX,
    ensures
        planned_read(partition_start, byte_offset, length).read_from(data) == segmented_read(
            data,
            partition_start,
            byte_offset,
            length,
        ),
{
    match partition_start {
        Some(partition) => {
            if byte_offset + length <= partition {
                lemma_read_before_partition(data, partition, byte_offset, length);
            } else if byte_offset >= partition {
                lemma_read_after_partition(data, partition, byte_offset, length);
            } else {
                lemma_read_across_partition(data, partition, byte_offset, length);
            }
        },
        None => {},
    }
}

/// Plans the read of `length` bytes of a region that starts at `disc_offset`, from
/// `local_offset` in it on, for a byte source that is read run by run. There is no plan
/// where the read would end behind the last offset that a `u64` can hold.
pub fn plan_read(
    partition_start: Option<u64>,
    disc_offset: u64,
    local_offset: u64,
    length: u64,
) -> (plan: Option<ReadPlan>)
    ensures
        plan is Some <==> read_extent(partition_start, disc_offset + local_offset, length as int)
            <= u64::MAX,
        plan matches Some(runs) ==> runs == planned_read(
            partition_start,
            disc_offset + local_offset,
            length as int,
        ),
{
    let byte_offset = disc_offset.checked_add(local_offset)?;
    let end = byte_offset.checked_add(length)?;
    match partition_start {
        Some(partition) if end > partition => {
            if byte_offset >= partition {
                let shifted = byte_offset.checked_add(DISK_SECTOR_METADATA_BLOCKSIZE)?;
                let _ = shifted.checked_add(length)?;
                Some(ReadPlan { first: ByteRange { offset: shifted, length }, second: None })
            } else {
                let partition_end = partition.checked_add(DISK_SECTOR_METADATA_BLOCKSIZE)?;
                let partition_point = partition - byte_offset;
                let _ = partition_end.checked_add(length - partition_point)?;
                Some(
                    ReadPlan {
                        first: ByteRange { offset: byte_offset, length: partition_point },
                        second: Some(
                            ByteRange { offset: partition_end, length: length - partition_point },
                        ),
                    },
                )
            }
        },
        _ => Some(ReadPlan { first: ByteRange { offset: byte_offset, length }, second: None }),
    }
}

/// `data` with the bytes from `byte_offset` on replaced by `bytes`, if all of them lie inside
/// `data`.
pub open spec fn linear_write(data: Seq<u8>, byte_offset: int, bytes: Seq<u8>) -> Option<Seq<u8>> {
    if 0 <= byte_offset && byte_offset + bytes.len() <= data.len() {
        Some(
            data.subrange(0, byte_offset) + bytes + data.subrange(
                byte_offset + bytes.len(),
                data.len() as int,
            ),
        )
    } else {
        None
    }
}

/// A write changes the bytes that it covers and no others, and a read of the bytes that it
/// covers gives back what was written.
pub proof fn lemma_read_after_write(data: Seq<u8>, byte_offset: int, bytes: Seq<u8>)
    requires
        linear_write(data, byte_offset, bytes) is Some,
    ensures
        linear_write(data, byte_offset, bytes).unwrap().len() == data.len(),
        linear_read(linear_write(data, byte_offset, bytes).unwrap(), byte_offset, bytes.len() as int)
            == Some(bytes),
        forall|i: int|
            0 <= i < data.len() && !(byte_offset <= i < byte_offset + bytes.len())
                ==> linear_write(data, byte_offset, bytes).unwrap()[i] == data[i],
{
    let written = linear_write(data, byte_offset, bytes).unwrap();
    assert(written.subrange(byte_offset, byte_offset + bytes.len()) =~= bytes);
}

/// Writes `bytes` over the bytes of `data` from `byte_offset` on. The write is linear: a block
/// of sector metadata in its way is written over like any other bytes. A write that does
/// not lie inside `data` fails and changes nothing: `data` never grows.
pub fn write_bytes_linear(data: &mut Vec<u8>, byte_offset: u64, bytes: &[u8]) -> (written: Result<
    (),
    DataError,
>)
    ensures
        match linear_write(old(data)@, byte_offset as int, bytes@) {
            Some(changed) => written is Ok && final(data)@ == changed,
            None => written == Err::<(), DataError>(DataError::Io) && final(data)@ == old(data)@,
        },
{
    let size = data.len();
    let count = bytes.len();
    if byte_offset > size as u64 || count as u64 > size as u64 - byte_offset {
        return Err(DataError::Io);
    }
    let start = byte_offset as usize;
    let mut done: usize = 0;
    while done < count
        invariant
            done <= count,
            count == bytes@.len(),
            start + count <= size,
            size == old(data)@.len(),
            data@.len() == size,
            data@ == old(data)@.subrange(0, start as int) + bytes@.subrange(0, done as int)
                + old(data)@.subrange(start + done, old(data)@.len() as int),
        decreases count - done,
    {
        data[start + done] = bytes[done];
        done += 1;
    }
    assert(bytes@.subrange(0, done as int) =~= bytes@);
    Ok(())
}

} // verus!
