//! Decoders of the leader and the trailer that frame one block of the stream.
//!
//! Both start with a generic header of fixed layout in little-endian byte
//! order; what follows it depends on the payload type. The decoders are pure
//! functions of the bytes.

use crate::transport::{TransportError, TransportResult};
use vstd::prelude::*;

verus! {

/// Magic number at the start of every leader: the ASCII letters `U3VL`.
pub const LEADER_MAGIC: u32 = 0x4C56_3355;

/// Magic number at the start of every trailer: the ASCII letters `U3VT`.
pub const TRAILER_MAGIC: u32 = 0x5456_3355;

/// Length of the generic part of a leader.
pub const GENERIC_LEADER_LEN: usize = 20;

/// Length of the generic part of a trailer.
pub const GENERIC_TRAILER_LEN: usize = 28;

/// Length of what an image leader reads after the generic part.
pub const IMAGE_LEADER_LEN: usize = 30;

/// Length of what a chunk leader reads after the generic part.
pub const CHUNK_LEADER_LEN: usize = 8;

/// Message of the error for a buffer that ends before the field read.
pub const MSG_SHORT: &'static str = "failed to fill whole buffer";

/// Message of the error for a wrong magic number.
pub const MSG_MAGIC: &'static str = "invalid prefix magic";

/// Message of the error for an unknown payload type.
pub const MSG_PAYLOAD_TYPE: &'static str = "invalid value for leader payload type";

/// Message of the error for an unknown payload status.
pub const MSG_PAYLOAD_STATUS: &'static str = "invalid value for trailer payload status";

/// The 16-bit number that two bytes at `at` hold, least significant first.
pub open spec fn le_u16(s: Seq<u8>, at: int) -> int {
    s[at] + 0x100 * s[at + 1]
}

/// The 32-bit number that four bytes at `at` hold, least significant first.
pub open spec fn le_u32(s: Seq<u8>, at: int) -> int {
    s[at] + 0x100 * s[at + 1] + 0x1_0000 * s[at + 2] + 0x100_0000 * s[at + 3]
}

/// The 64-bit number that eight bytes at `at` hold, least significant first.
pub open spec fn le_u64(s: Seq<u8>, at: int) -> int {
    le_u32(s, at) + 0x1_0000_0000 * le_u32(s, at + 4)
}

/// Reads a little-endian `u16`.
pub fn read_u16_le(buf: &[u8], at: usize) -> (value: u16)
    requires
        at + 2 <= buf.len(),
    ensures
        value == le_u16(buf@, at as int),
{
    let b0: u16 = buf[at] as u16;
    let b1: u16 = buf[at + 1] as u16;
    b0 + 0x100 * b1
}

/// Reads a little-endian `u32`.
pub fn read_u32_le(buf: &[u8], at: usize) -> (value: u32)
    requires
        at + 4 <= buf.len(),
    ensures
        value == le_u32(buf@, at as int),
{
    let b0: u32 = buf[at] as u32;
    let b1: u32 = buf[at + 1] as u32;
    let b2: u32 = buf[at + 2] as u32;
    let b3: u32 = buf[at + 3] as u32;
    b0 + 0x100 * b1 + 0x1_0000 * b2 + 0x100_0000 * b3
}

/// Reads a little-endian `u64`.
pub fn read_u64_le(buf: &[u8], at: usize) -> (value: u64)
    requires
        at + 8 <= buf.len(),
    ensures
        value == le_u64(buf@, at as int),
{
    let low: u64 = read_u32_le(buf, at) as u64;
    let high: u64 = read_u32_le(buf, at + 4) as u64;
    low + 0x1_0000_0000 * high
}

/// What a block carries.
#[derive(Clone, Copy, Debug, PartialEq, Eq, Structural)]
pub enum PayloadType {
    /// An image.
    Image,
    /// An image followed by chunk records.
    ImageExtendedChunk,
    /// Chunk records alone.
    Chunk,
}

/// The payload type that a code of the leader stands for.
pub open spec fn payload_type_of(code: int) -> Option<PayloadType> {
    if code == 0x0001 {
        Some(PayloadType::Image)
    } else if code == 0x4001 {
        Some(PayloadType::ImageExtendedChunk)
    } else if code == 0x4000 {
        Some(PayloadType::Chunk)
    } else {
        None
    }
}

impl PayloadType {
    /// Decodes the payload type field of a leader.
    pub fn from_code(code: u16) -> (res: Option<PayloadType>)
        ensures
            res == payload_type_of(code as int),
    {
        if code == 0x0001 {
            Some(PayloadType::Image)
        } else if code == 0x4001 {
            Some(PayloadType::ImageExtendedChunk)
        } else if code == 0x4000 {
            Some(PayloadType::Chunk)
        } else {
            None
        }
    }
}

/// How the device finished a block.
#[derive(Clone, Copy, Debug, PartialEq, Eq, Structural)]
pub enum PayloadStatus {
    /// The block is complete.
    Success,
    /// The device dropped data of the block.
    DataDiscarded,
    /// The device could not send the block fast enough.
    DataOverrun,
}

/// The payload status that a code of the trailer stands for.
pub open spec fn payload_status_of(code: int) -> Option<PayloadStatus> {
    if code == 0x0000 {
        Some(PayloadStatus::Success)
    } else if code == 0xA100 {
        Some(PayloadStatus::DataDiscarded)
    } else if code == 0xA101 {
        Some(PayloadStatus::DataOverrun)
    } else {
        None
    }
}

impl PayloadStatus {
    /// Decodes the status field of a trailer.
    pub fn from_code(code: u16) -> (res: Option<PayloadStatus>)
        ensures
            res == payload_status_of(code as int),
    {
        if code == 0x0000 {
            Some(PayloadStatus::Success)
        } else if code == 0xA100 {
            Some(PayloadStatus::DataDiscarded)
        } else if code == 0xA101 {
            Some(PayloadStatus::DataOverrun)
        } else {
            None
        }
    }

    /// The name of the status, as it stands in messages.
    pub fn name(&self) -> (name: &'static str)
        ensures
            name == match *self {
                PayloadStatus::Success => "Success",
                PayloadStatus::DataDiscarded => "DataDiscarded",
                PayloadStatus::DataOverrun => "DataOverrun",
            },
    {
        match self {
            PayloadStatus::Success => "Success",
            PayloadStatus::DataDiscarded => "DataDiscarded",
            PayloadStatus::DataOverrun => "DataOverrun",
        }
    }
}

/// Code of a pixel format in the pixel format naming convention.
#[derive(Clone, Copy, Debug, PartialEq, Eq, Structural)]
pub struct PixelFormat {
    pub code: u32,
}

/// The generic part of a leader.
#[derive(Clone, Copy, Debug, PartialEq, Eq, Structural)]
pub struct GenericLeader {
    pub leader_size: u16,
    pub block_id: u64,
    pub payload_type: PayloadType,
}

/// Why the bytes `s` are no leader, or `None` where they are one.
pub open spec fn leader_defect(s: Seq<u8>) -> Option<TransportError> {
    if s.len() < 4 {
        Some(TransportError::BufferIo(MSG_SHORT))
    } else if le_u32(s, 0) != LEADER_MAGIC {
        Some(TransportError::InvalidPacket(MSG_MAGIC))
    } else if s.len() < GENERIC_LEADER_LEN {
        Some(TransportError::BufferIo(MSG_SHORT))
    } else if payload_type_of(le_u16(s, 18)) is None {
        Some(TransportError::InvalidPacket(MSG_PAYLOAD_TYPE))
    } else {
        None
    }
}

/// The generic part that the bytes `s` of a leader hold.
pub open spec fn generic_leader_of(s: Seq<u8>) -> GenericLeader {
    GenericLeader {
        leader_size: le_u16(s, 6) as u16,
        block_id: le_u64(s, 8) as u64,
        payload_type: payload_type_of(le_u16(s, 18))->0,
    }
}

/// Leader of a block: the generic part decoded, the rest as bytes.
#[derive(Clone, Copy, Debug)]
pub struct Leader<'a> {
    pub generic_leader: GenericLeader,
    pub raw_specific_leader: &'a [u8],
}

/// What an image leader holds after the generic part. The leader of an image
/// with chunk records has the same layout.
#[derive(Clone, Copy, Debug, PartialEq, Eq, Structural)]
pub struct ImageLeader {
    pub timestamp: u64,
    pub pixel_format: PixelFormat,
    pub width: u32,
    pub height: u32,
    pub x_offset: u32,
    pub y_offset: u32,
    pub x_padding: u16,
}

/// Leader of an image that chunk records follow.
pub type ImageExtendedChunkLeader = ImageLeader;

/// What a chunk leader holds after the generic part.
#[derive(Clone, Copy, Debug, PartialEq, Eq, Structural)]
pub struct ChunkLeader {
    pub timestamp: u64,
}

/// The image leader that the bytes `s` after the generic part hold.
pub open spec fn image_leader_of(s: Seq<u8>) -> ImageLeader {
    ImageLeader {
        timestamp: le_u64(s, 0) as u64,
        pixel_format: PixelFormat { code: le_u32(s, 8) as u32 },
        width: le_u32(s, 12) as u32,
        height: le_u32(s, 16) as u32,
        x_offset: le_u32(s, 20) as u32,
        y_offset: le_u32(s, 24) as u32,
        x_padding: le_u16(s, 28) as u16,
    }
}

impl<'a> Leader<'a> {
    /// Decodes the generic part of a leader and keeps the rest for
    /// `image_leader` and `chunk_leader`.
    pub fn parse(buf: &'a [u8]) -> (res: TransportResult<Leader<'a>>)
        ensures
            match res {
                Ok(leader) => {
                    &&& leader_defect(buf@) is None
                    &&& leader.generic_leader == generic_leader_of(buf@)
                    &&& leader.raw_specific_leader@ == buf@.subrange(
                        GENERIC_LEADER_LEN as int,
                        buf@.len() as int,
                    )
                },
                Err(e) => leader_defect(buf@) == Some(e),
            },
    {
        if buf.len() < 4 {
            return Err(TransportError::BufferIo(MSG_SHORT));
        }
        let magic = read_u32_le(buf, 0);
        if magic != LEADER_MAGIC {
            return Err(TransportError::InvalidPacket(MSG_MAGIC));
        }
        if buf.len() < GENERIC_LEADER_LEN {
            return Err(TransportError::BufferIo(MSG_SHORT));
        }
        let leader_size = read_u16_le(buf, 6);
        let block_id = read_u64_le(buf, 8);
        match PayloadType::from_code(read_u16_le(buf, 18)) {
            None => Err(TransportError::InvalidPacket(MSG_PAYLOAD_TYPE)),
            Some(payload_type) => Ok(
                Leader {
                    generic_leader: GenericLeader { leader_size, block_id, payload_type },
                    raw_specific_leader: &buf[GENERIC_LEADER_LEN..buf.len()],
                },
            ),
        }
    }

    /// Total size of the leader as the device states it.
    pub fn leader_size(&self) -> (size: u16)
        ensures
            size == self.generic_leader.leader_size,
    {
        self.generic_leader.leader_size
    }

    /// ID of the block.
    pub fn block_id(&self) -> (id: u64)
        ensures
            id == self.generic_leader.block_id,
    {
        self.generic_leader.block_id
    }

    /// Type of the payload that follows the leader.
    pub fn payload_type(&self) -> (payload_type: PayloadType)
        ensures
            payload_type == self.generic_leader.payload_type,
    {
        self.generic_leader.payload_type
    }

    /// Decodes what follows the generic part as an image leader. It fails
    /// where the leader is too short to be one.
    pub fn image_leader(&self) -> (res: TransportResult<ImageLeader>)
        ensures
            self.raw_specific_leader@.len() >= IMAGE_LEADER_LEN ==> res == Ok::<
                ImageLeader,
                TransportError,
            >(image_leader_of(self.raw_specific_leader@)),
            self.raw_specific_leader@.len() < IMAGE_LEADER_LEN ==> res == Err::<
                ImageLeader,
                TransportError,
            >(TransportError::BufferIo(MSG_SHORT)),
    {
        let buf = self.raw_specific_leader;
        if buf.len() < IMAGE_LEADER_LEN {
            return Err(TransportError::BufferIo(MSG_SHORT));
        }
        Ok(
            ImageLeader {
                timestamp: read_u64_le(buf, 0),
                pixel_format: PixelFormat { code: read_u32_le(buf, 8) },
                width: read_u32_le(buf, 12),
                height: read_u32_le(buf, 16),
                x_offset: read_u32_le(buf, 20),
                y_offset: read_u32_le(buf, 24),
                x_padding: read_u16_le(buf, 28),
            },
        )
    }

    /// Decodes what follows the generic part as a chunk leader. It fails where
    /// the leader is too short to be one.
    pub fn chunk_leader(&self) -> (res: TransportResult<ChunkLeader>)
        ensures
            self.raw_specific_leader@.len() >= CHUNK_LEADER_LEN ==> res == Ok::<
                ChunkLeader,
                TransportError,
            >(ChunkLeader { timestamp: le_u64(self.raw_specific_leader@, 0) as u64 }),
            self.raw_specific_leader@.len() < CHUNK_LEADER_LEN ==> res == Err::<
                ChunkLeader,
                TransportError,
            >(TransportError::BufferIo(MSG_SHORT)),
    {
        let buf = self.raw_specific_leader;
        if buf.len() < CHUNK_LEADER_LEN {
            return Err(TransportError::BufferIo(MSG_SHORT));
        }
        Ok(ChunkLeader { timestamp: read_u64_le(buf, 0) })
    }
}

/// The generic part of a trailer.
#[derive(Clone, Copy, Debug, PartialEq, Eq, Structural)]
pub struct GenericTrailer {
    pub trailer_size: u16,
    pub block_id: u64,
    pub payload_status: PayloadStatus,
    pub valid_payload_size: u64,
}

/// Why the bytes `s` are no trailer, or `None` where they are one.
pub open spec fn trailer_defect(s: Seq<u8>) -> Option<TransportError> {
    if s.len() < 4 {
        Some(TransportError::BufferIo(MSG_SHORT))
    } else if le_u32(s, 0) != TRAILER_MAGIC {
        Some(TransportError::InvalidPacket(MSG_MAGIC))
    } else if s.len() < 18 {
        Some(TransportError::BufferIo(MSG_SHORT))
    } else if payload_status_of(le_u16(s, 16)) is None {
        Some(TransportError::InvalidPacket(MSG_PAYLOAD_STATUS))
    } else if s.len() < GENERIC_TRAILER_LEN {
        Some(TransportError::BufferIo(MSG_SHORT))
    } else {
        None
    }
}

/// The generic part that the bytes `s` of a trailer hold.
pub open spec fn generic_trailer_of(s: Seq<u8>) -> GenericTrailer {
    GenericTrailer {
        trailer_size: le_u16(s, 6) as u16,
        block_id: le_u64(s, 8) as u64,
        payload_status: payload_status_of(le_u16(s, 16))->0,
        valid_payload_size: le_u64(s, 20) as u64,
    }
}

/// Trailer of a block: the generic part decoded, the rest as bytes.
#[derive(Clone, Copy, Debug)]
pub struct Trailer<'a> {
    pub generic_trailer: GenericTrailer,
    pub raw_specific_trailer: &'a [u8],
}

/// What an image trailer holds after the generic part.
#[derive(Clone, Copy, Debug, PartialEq, Eq, Structural)]
pub struct ImageTrailer {
    pub actual_height: u32,
}

/// What the trailer of an image with chunk records holds after the generic
/// part.
#[derive(Clone, Copy, Debug, PartialEq, Eq, Structural)]
pub struct ImageExtendedChunkTrailer {
    pub actual_height: u32,
    pub chunk_layout_id: u32,
}

/// What a chunk trailer holds after the generic part.
#[derive(Clone, Copy, Debug, PartialEq, Eq, Structural)]
pub struct ChunkTrailer {
    pub chunk_layout_id: u32,
}

impl<'a> Trailer<'a> {
    /// Decodes the generic part of a trailer and keeps the rest for
    /// `image_trailer`, `image_extended_chunk_trailer` and `chunk_trailer`.
    pub fn parse(buf: &'a [u8]) -> (res: TransportResult<Trailer<'a>>)
        ensures
            match res {
                Ok(trailer) => {
                    &&& trailer_defect(buf@) is None
                    &&& trailer.generic_trailer == generic_trailer_of(buf@)
                    &&& trailer.raw_specific_trailer@ == buf@.subrange(
                        GENERIC_TRAILER_LEN as int,
                        buf@.len() as int,
                    )
                },
                Err(e) => trailer_defect(buf@) == Some(e),
            },
    {
        if buf.len() < 4 {
            return Err(TransportError::BufferIo(MSG_SHORT));
        }
        let magic = read_u32_le(buf, 0);
        if magic != TRAILER_MAGIC {
            return Err(TransportError::InvalidPacket(MSG_MAGIC));
        }
        if buf.len() < 18 {
            return Err(TransportError::BufferIo(MSG_SHORT));
        }
        let trailer_size = read_u16_le(buf, 6);
        let block_id = read_u64_le(buf, 8);
        match PayloadStatus::from_code(read_u16_le(buf, 16)) {
            None => Err(TransportError::InvalidPacket(MSG_PAYLOAD_STATUS)),
            Some(payload_status) => {
                if buf.len() < GENERIC_TRAILER_LEN {
                    return Err(TransportError::BufferIo(MSG_SHORT));
                }
                let valid_payload_size = read_u64_le(buf, 20);
                Ok(
                    Trailer {
                        generic_trailer: GenericTrailer {
                            trailer_size,
                            block_id,
                            payload_status,
                            valid_payload_size,
                        },
                        raw_specific_trailer: &buf[GENERIC_TRAILER_LEN..buf.len()],
                    },
                )
            },
        }
    }

    /// Total size of the trailer as the device states it.
    pub fn trailer_size(&self) -> (size: u16)
        ensures
            size == self.generic_trailer.trailer_size,
    {
        self.generic_trailer.trailer_size
    }

    /// ID of the block.
    pub fn block_id(&self) -> (id: u64)
        ensures
            id == self.generic_trailer.block_id,
    {
        self.generic_trailer.block_id
    }

    /// How the device finished the block.
    pub fn payload_status(&self) -> (status: PayloadStatus)
        ensures
            status == self.generic_trailer.payload_status,
    {
        self.generic_trailer.payload_status
    }

    /// Number of payload bytes that the device declares valid.
    pub fn valid_payload_size(&self) -> (size: u64)
        ensures
            size == self.generic_trailer.valid_payload_size,
    {
        self.generic_trailer.valid_payload_size
    }

    /// Decodes what follows the generic part as an image trailer. It fails
    /// where the trailer is too short to be one.
    pub fn image_trailer(&self) -> (res: TransportResult<ImageTrailer>)
        ensures
            self.raw_specific_trailer@.len() >= 4 ==> res == Ok::<ImageTrailer, TransportError>(
                ImageTrailer { actual_height: le_u32(self.raw_specific_trailer@, 0) as u32 },
            ),
            self.raw_specific_trailer@.len() < 4 ==> res == Err::<ImageTrailer, TransportError>(
                TransportError::BufferIo(MSG_SHORT),
            ),
    {
        let buf = self.raw_specific_trailer;
        if buf.len() < 4 {
            return Err(TransportError::BufferIo(MSG_SHORT));
        }
        Ok(ImageTrailer { actual_height: read_u32_le(buf, 0) })
    }

    /// Decodes what follows the generic part as the trailer of an image with
    /// chunk records. It fails where the trailer is too short to be one.
    pub fn image_extended_chunk_trailer(&self) -> (res: TransportResult<
        ImageExtendedChunkTrailer,
    >)
        ensures
            self.raw_specific_trailer@.len() >= 8 ==> res == Ok::<
                ImageExtendedChunkTrailer,
                TransportError,
            >(
                ImageExtendedChunkTrailer {
                    actual_height: le_u32(self.raw_specific_trailer@, 0) as u32,
                    chunk_layout_id: le_u32(self.raw_specific_trailer@, 4) as u32,
                },
            ),
            self.raw_specific_trailer@.len() < 8 ==> res == Err::<
                ImageExtendedChunkTrailer,
                TransportError,
            >(TransportError::BufferIo(MSG_SHORT)),
    {
        let buf = self.raw_specific_trailer;
        if buf.len() < 8 {
            return Err(TransportError::BufferIo(MSG_SHORT));
        }
        Ok(
            ImageExtendedChunkTrailer {
                actual_height: read_u32_le(buf, 0),
                chunk_layout_id: read_u32_le(buf, 4),
            },
        )
    }

    /// Decodes what follows the generic part as a chunk trailer. It fails
    /// where the trailer is too short to be one.
    pub fn chunk_trailer(&self) -> (res: TransportResult<ChunkTrailer>)
        ensures
            self.raw_specific_trailer@.len() >= 4 ==> res == Ok::<ChunkTrailer, TransportError>(
                ChunkTrailer { chunk_layout_id: le_u32(self.raw_specific_trailer@, 0) as u32 },
            ),
            self.raw_specific_trailer@.len() < 4 ==> res == Err::<ChunkTrailer, TransportError>(
                TransportError::BufferIo(MSG_SHORT),
            ),
    {
        let buf = self.raw_specific_trailer;
        if buf.len() < 4 {
            return Err(TransportError::BufferIo(MSG_SHORT));
        }
        Ok(ChunkTrailer { chunk_layout_id: read_u32_le(buf, 0) })
    }
}

} // verus!
