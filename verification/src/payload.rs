//! The unit that the stream delivers, and how one is built from the leader,
//! the payload bytes and the trailer of a block.

use crate::error::{result_view, StreamError, StreamErrorView, StreamResult};
use crate::protocol::{
    image_leader_of, le_u32, le_u64, GenericLeader, GenericTrailer, Leader, PayloadStatus,
    PayloadType, PixelFormat, Trailer, CHUNK_LEADER_LEN, IMAGE_LEADER_LEN, MSG_SHORT,
};
use crate::text::{decimal, to_decimal};
use crate::transport::TransportError;
use vstd::prelude::*;

verus! {

/// Length of the ID field of a chunk record.
pub const CHUNK_ID_LEN: usize = 4;

/// Length of the size field of a chunk record.
pub const CHUNK_SIZE_LEN: usize = 4;

/// Geometry and format of the image in a payload.
#[derive(Clone, Copy, Debug, PartialEq, Eq, Structural)]
pub struct ImageInfo {
    /// Width of the image.
    pub width: usize,
    /// Height of the image.
    pub height: usize,
    /// X offset in pixels from the whole image origin.
    pub x_offset: usize,
    /// Y offset in pixels from the whole image origin.
    pub y_offset: usize,
    /// Pixel format of the image.
    pub pixel_format: PixelFormat,
    /// Size of the image in bytes.
    pub image_size: usize,
}

/// One block of the stream, as the consumer receives it.
#[derive(Clone, Debug, PartialEq, Eq)]
pub struct Payload {
    /// ID of the block.
    pub id: u64,
    /// What the block carries.
    pub payload_type: PayloadType,
    /// `Some` where the block carries an image.
    pub image_info: Option<ImageInfo>,
    /// The bytes of the block. The consumer hands the buffer back once it is
    /// done with it.
    pub payload: Vec<u8>,
    /// Number of bytes in `payload` that the device declared valid.
    pub valid_payload_size: usize,
    /// Time stamp of the block in ticks of the device.
    pub timestamp: u64,
}

/// The 32-bit number that four bytes at `at` hold, most significant first.
pub open spec fn be_u32(s: Seq<u8>, at: int) -> int {
    0x100_0000 * s[at] + 0x1_0000 * s[at + 1] + 0x100 * s[at + 2] + s[at + 3]
}

/// Reads a big-endian `u32`.
pub fn read_u32_be(buf: &[u8], at: usize) -> (value: u32)
    requires
        at + 4 <= buf.len(),
    ensures
        value == be_u32(buf@, at as int),
{
    let b0: u32 = buf[at] as u32;
    let b1: u32 = buf[at + 1] as u32;
    let b2: u32 = buf[at + 2] as u32;
    let b3: u32 = buf[at + 3] as u32;
    0x100_0000 * b0 + 0x1_0000 * b1 + 0x100 * b2 + b3
}

/// How the backward walk over the chunk records of a payload ends.
#[derive(Clone, Copy, Debug, PartialEq, Eq, Structural)]
pub enum ChunkWalk {
    /// The walk arrived at offset 0; the record that starts there holds this
    /// many bytes of data: the image.
    ImageSize(usize),
    /// Fewer than four bytes are left where a size field has to stand.
    SizeFieldMissing,
    /// A record states more data than there are bytes before its size field.
    DataTooShort,
}

/// The backward walk over the chunk records that end at `offset`.
///
/// Every record is four bytes of ID, the data, and the size of the data in
/// four bytes, most significant first. The walk reads the size field in front
/// of the cursor and moves the cursor to the start of the record, until the
/// cursor stands at 0.
pub open spec fn chunk_walk(payload: Seq<u8>, offset: int) -> ChunkWalk
    decreases offset,
{
    if offset < CHUNK_SIZE_LEN {
        ChunkWalk::SizeFieldMissing
    } else {
        let data_size = be_u32(payload, offset - CHUNK_SIZE_LEN);
        let start = offset - CHUNK_SIZE_LEN - (data_size + CHUNK_ID_LEN);
        if start < 0 {
            ChunkWalk::DataTooShort
        } else if start == 0 {
            ChunkWalk::ImageSize(data_size as usize)
        } else {
            chunk_walk(payload, start)
        }
    }
}

/// Whether records with the data sizes `sizes`, the first of them first, fill
/// the bytes of `payload` from `start` to `end` exactly.
pub open spec fn records_fill(payload: Seq<u8>, sizes: Seq<nat>, start: int, end: int) -> bool
    decreases sizes.len(),
{
    if sizes.len() == 0 {
        start == end
    } else {
        let data_size = sizes.last();
        &&& start + data_size + CHUNK_ID_LEN + CHUNK_SIZE_LEN <= end
        &&& be_u32(payload, end - CHUNK_SIZE_LEN) == data_size
        &&& records_fill(
            payload,
            sizes.drop_last(),
            start,
            end - CHUNK_SIZE_LEN - data_size - CHUNK_ID_LEN,
        )
    }
}

/// Walks the chunk records of `payload` backwards from `valid_payload_size`.
pub fn walk_chunks(payload: &[u8], valid_payload_size: usize) -> (walk: ChunkWalk)
    requires
        valid_payload_size <= payload.len(),
    ensures
        walk == chunk_walk(payload@, valid_payload_size as int),
{
    let mut current_offset = valid_payload_size;
    loop
        invariant
            current_offset <= payload.len(),
            chunk_walk(payload@, valid_payload_size as int) == chunk_walk(
                payload@,
                current_offset as int,
            ),
        decreases current_offset,
    {
        if current_offset < CHUNK_SIZE_LEN {
            return ChunkWalk::SizeFieldMissing;
        }
        current_offset = current_offset - CHUNK_SIZE_LEN;
        let data_size = read_u32_be(payload, current_offset);
        let record_head: u64 = data_size as u64 + CHUNK_ID_LEN as u64;
        if (current_offset as u64) < record_head {
            return ChunkWalk::DataTooShort;
        }
        current_offset = current_offset - record_head as usize;
        if current_offset == 0 {
            return ChunkWalk::ImageSize(data_size as usize);
        }
    }
}

/// Where records fill a payload from offset 0 to `end`, the walk from `end`
/// arrives at offset 0 and gives the data size of the first record.
pub proof fn lemma_walk_finds_image(payload: Seq<u8>, sizes: Seq<nat>, end: int)
    requires
        sizes.len() > 0,
        records_fill(payload, sizes, 0, end),
    ensures
        chunk_walk(payload, end) matches ChunkWalk::ImageSize(image_size) && image_size
            == sizes[0],
    decreases sizes.len(),
{
    reveal_with_fuel(records_fill, 2);
    let rest = sizes.drop_last();
    let start = end - CHUNK_SIZE_LEN - sizes.last() - CHUNK_ID_LEN;
    if rest.len() > 0 {
        lemma_walk_finds_image(payload, rest, start);
        assert(rest[0] == sizes[0]);
    }
}

/// Where the walk from `end` gives an image size, it has arrived at offset 0:
/// records fill the payload from 0 to `end` exactly, and the first of them
/// holds the image.
pub proof fn lemma_walk_ends_at_zero(payload: Seq<u8>, end: int) -> (sizes: Seq<nat>)
    requires
        chunk_walk(payload, end) is ImageSize,
    ensures
        sizes.len() > 0,
        records_fill(payload, sizes, 0, end),
        chunk_walk(payload, end) matches ChunkWalk::ImageSize(image_size) && image_size
            == sizes[0],
    decreases end,
{
    reveal_with_fuel(records_fill, 2);
    let data_size = be_u32(payload, end - CHUNK_SIZE_LEN);
    let start = end - CHUNK_SIZE_LEN - (data_size + CHUNK_ID_LEN);
    if start == 0 {
        let sizes = seq![data_size as nat];
        assert(sizes.drop_last() =~= Seq::<nat>::empty());
        sizes
    } else {
        let rest = lemma_walk_ends_at_zero(payload, start);
        let sizes = rest.push(data_size as nat);
        assert(sizes.drop_last() =~= rest);
        sizes
    }
}

/// Where records fill a payload from a residual offset above 0 to `end`, the
/// walk from `end` ends as the walk from the residual does; with fewer than
/// four bytes left it fails for want of a size field.
pub proof fn lemma_walk_meets_residual(payload: Seq<u8>, sizes: Seq<nat>, residual: int, end: int)
    requires
        0 < residual,
        records_fill(payload, sizes, residual, end),
    ensures
        chunk_walk(payload, end) == chunk_walk(payload, residual),
        residual < CHUNK_SIZE_LEN ==> chunk_walk(payload, end) == ChunkWalk::SizeFieldMissing,
        chunk_walk(payload, residual) !is ImageSize ==> chunk_walk(payload, end) !is ImageSize,
    decreases sizes.len(),
{
    if sizes.len() > 0 {
        let start = end - CHUNK_SIZE_LEN - sizes.last() - CHUNK_ID_LEN;
        lemma_walk_meets_residual(payload, sizes.drop_last(), residual, start);
    }
}

/// Start of the message for a trailer whose status is not success.
pub const MSG_STATUS: &'static str = "trailer status indicates error: ";

/// Message for a payload that ends where a size field has to stand.
pub const MSG_SIZE_FIELD_MISSING: &'static str = "failed to parse chunk data: size field missing";

/// Message for a chunk record that states more data than the payload holds.
pub const MSG_DATA_TOO_SHORT: &'static str =
    "failed to parse chunk data: chunk data size is smaller than specified size";

/// Message for a trailer that declares more bytes valid than were read.
pub open spec fn size_mismatch_message(expected: nat, got: nat) -> Seq<char> {
    "the actual read payload size is smaller than the size specified in the trailer: expected "@
        + decimal(expected) + ", but got "@ + decimal(got)
}

/// Message for a trailer whose status is not success.
pub open spec fn status_message(status: PayloadStatus) -> Seq<char> {
    MSG_STATUS@ + (match status {
        PayloadStatus::Success => "Success",
        PayloadStatus::DataDiscarded => "DataDiscarded",
        PayloadStatus::DataOverrun => "DataOverrun",
    })@
}

/// The parts of a block from which a payload is built.
pub struct PayloadBuilder<'a> {
    pub leader: Leader<'a>,
    pub payload_buf: Vec<u8>,
    pub read_payload_size: usize,
    pub trailer: Trailer<'a>,
}

/// What a payload is built from, with the bytes after the generic parts of
/// leader and trailer as sequences.
pub ghost struct Block {
    pub leader: GenericLeader,
    pub specific_leader: Seq<u8>,
    pub payload_buf: Vec<u8>,
    pub read_payload_size: usize,
    pub trailer: GenericTrailer,
    pub specific_trailer: Seq<u8>,
}

impl Block {
    /// The bytes read lie in the buffer.
    pub open spec fn wf(self) -> bool {
        self.read_payload_size <= self.payload_buf.len()
    }

    /// The message that rejects the block before its type is looked at, or
    /// `None` where status and size are in order.
    pub open spec fn generic_defect(self) -> Option<Seq<char>> {
        if self.trailer.payload_status != PayloadStatus::Success {
            Some(status_message(self.trailer.payload_status))
        } else if self.trailer.valid_payload_size > self.read_payload_size {
            Some(
                size_mismatch_message(
                    self.trailer.valid_payload_size as nat,
                    self.read_payload_size as nat,
                ),
            )
        } else {
            None
        }
    }

    /// The message that rejects what follows the generic parts of leader and
    /// trailer, where the one has to hold `leader_len` bytes and the other
    /// `trailer_len`.
    pub open spec fn specific_defect(self, leader_len: int, trailer_len: int) -> Option<
        Seq<char>,
    > {
        if self.specific_leader.len() < leader_len || self.specific_trailer.len() < trailer_len {
            Some(TransportError::BufferIo(MSG_SHORT).spec_describe())
        } else {
            None
        }
    }

    /// The message that rejects a block as an image payload.
    pub open spec fn image_defect(self) -> Option<Seq<char>> {
        self.specific_defect(IMAGE_LEADER_LEN as int, 4)
    }

    /// The message that rejects a block as an image payload with chunk
    /// records.
    pub open spec fn image_extended_defect(self) -> Option<Seq<char>> {
        if self.specific_defect(IMAGE_LEADER_LEN as int, 8) is Some {
            self.specific_defect(IMAGE_LEADER_LEN as int, 8)
        } else {
            match chunk_walk(self.payload_buf@, self.trailer.valid_payload_size as int) {
                ChunkWalk::ImageSize(_) => None,
                ChunkWalk::SizeFieldMissing => Some(MSG_SIZE_FIELD_MISSING@),
                ChunkWalk::DataTooShort => Some(MSG_DATA_TOO_SHORT@),
            }
        }
    }

    /// The message that rejects a block as a chunk payload.
    pub open spec fn chunk_defect(self) -> Option<Seq<char>> {
        self.specific_defect(CHUNK_LEADER_LEN as int, 4)
    }

    /// The message of the error that rejects the block, or `None` where a
    /// payload is built from it.
    pub open spec fn defect(self) -> Option<Seq<char>> {
        if self.generic_defect() is Some {
            self.generic_defect()
        } else {
            match self.leader.payload_type {
                PayloadType::Image => self.image_defect(),
                PayloadType::ImageExtendedChunk => self.image_extended_defect(),
                PayloadType::Chunk => self.chunk_defect(),
            }
        }
    }

    /// The image information of a block with the image size given.
    pub open spec fn image_info(self, image_size: usize) -> ImageInfo {
        let leader = image_leader_of(self.specific_leader);
        ImageInfo {
            width: leader.width as usize,
            height: le_u32(self.specific_trailer, 0) as usize,
            x_offset: leader.x_offset as usize,
            y_offset: leader.y_offset as usize,
            pixel_format: leader.pixel_format,
            image_size,
        }
    }

    /// The image payload that the block makes.
    pub open spec fn built_image(self) -> Payload {
        Payload {
            id: self.leader.block_id,
            payload_type: PayloadType::Image,
            image_info: Some(self.image_info(self.trailer.valid_payload_size as usize)),
            payload: self.payload_buf,
            valid_payload_size: self.trailer.valid_payload_size as usize,
            timestamp: image_leader_of(self.specific_leader).timestamp,
        }
    }

    /// The image payload with chunk records that the block makes.
    pub open spec fn built_image_extended(self) -> Payload {
        Payload {
            id: self.leader.block_id,
            payload_type: PayloadType::ImageExtendedChunk,
            image_info: Some(
                self.image_info(
                    chunk_walk(
                        self.payload_buf@,
                        self.trailer.valid_payload_size as int,
                    )->ImageSize_0,
                ),
            ),
            payload: self.payload_buf,
            valid_payload_size: self.trailer.valid_payload_size as usize,
            timestamp: image_leader_of(self.specific_leader).timestamp,
        }
    }

    /// The chunk payload that the block makes.
    pub open spec fn built_chunk(self) -> Payload {
        Payload {
            id: self.leader.block_id,
            payload_type: PayloadType::Chunk,
            image_info: None,
            payload: self.payload_buf,
            valid_payload_size: self.trailer.valid_payload_size as usize,
            timestamp: le_u64(self.specific_leader, 0) as u64,
        }
    }

    /// The payload that the block makes, where nothing rejects it.
    pub open spec fn built(self) -> Payload {
        match self.leader.payload_type {
            PayloadType::Image => self.built_image(),
            PayloadType::ImageExtendedChunk => self.built_image_extended(),
            PayloadType::Chunk => self.built_chunk(),
        }
    }

    /// What building gives for a block with the defect `defect` that would
    /// else make `built`.
    pub open spec fn outcome_of(defect: Option<Seq<char>>, built: Payload) -> Result<
        Payload,
        StreamErrorView,
    > {
        match defect {
            None => Ok(built),
            Some(message) => Err(StreamErrorView::InvalidPayload(message)),
        }
    }

    /// What building the block gives: the payload, or the error that rejects
    /// the block.
    pub open spec fn outcome(self) -> Result<Payload, StreamErrorView> {
        Self::outcome_of(self.defect(), self.built())
    }
}

impl<'a> View for PayloadBuilder<'a> {
    type V = Block;

    open spec fn view(&self) -> Block {
        Block {
            leader: self.leader.generic_leader,
            specific_leader: self.leader.raw_specific_leader@,
            payload_buf: self.payload_buf,
            read_payload_size: self.read_payload_size,
            trailer: self.trailer.generic_trailer,
            specific_trailer: self.trailer.raw_specific_trailer@,
        }
    }
}

impl<'a> PayloadBuilder<'a> {
    /// Builds the payload of a block. The block is rejected with
    /// `InvalidPayload` where the trailer does not report success, where it
    /// declares more bytes valid than were read, where leader or trailer are
    /// too short for the payload type, and where the chunk records of an image
    /// do not fill the valid bytes.
    pub fn build(self) -> (res: StreamResult<Payload>)
        requires
            self@.wf(),
        ensures
            result_view(res) == self@.outcome(),
            self@.generic_defect() matches Some(message) ==> result_view(res) == Err::<
                Payload,
                StreamErrorView,
            >(StreamErrorView::InvalidPayload(message)),
            res matches Ok(payload) ==> {
                &&& payload.payload == self.payload_buf
                &&& payload.valid_payload_size == self@.trailer.valid_payload_size
                &&& payload.valid_payload_size <= self.read_payload_size
                &&& payload.payload_type == self@.leader.payload_type
                &&& payload.image_info is Some <==> payload.payload_type != PayloadType::Chunk
                &&& payload.payload_type == PayloadType::Image ==> payload.image_info->0.image_size
                    == self@.trailer.valid_payload_size
            },
    {
        let payload_status = self.trailer.payload_status();
        match payload_status {
            PayloadStatus::Success => {},
            _ => {
                let message = String::from_str(MSG_STATUS).concat(payload_status.name());
                return Err(StreamError::InvalidPayload(message));
            },
        }
        if self.trailer.valid_payload_size() > self.read_payload_size as u64 {
            let mut message = String::from_str(
                "the actual read payload size is smaller than the size specified in the trailer: expected ",
            );
            message.append(to_decimal(self.trailer.valid_payload_size()).as_str());
            message.append(", but got ");
            message.append(to_decimal(self.read_payload_size as u64).as_str());
            assert(message@ =~= size_mismatch_message(
                self@.trailer.valid_payload_size as nat,
                self.read_payload_size as nat,
            ));
            return Err(StreamError::InvalidPayload(message));
        }
        match self.leader.payload_type() {
            PayloadType::Image => self.build_image_payload(),
            PayloadType::ImageExtendedChunk => self.build_image_extended_payload(),
            PayloadType::Chunk => self.build_chunk_payload(),
        }
    }

    /// Builds the payload of an image block, whatever its status and however
    /// many bytes were read: `build` looks at those before.
    ///
    /// A leader and a trailer that are long enough for an image give an image
    /// payload: the size of its image is the number of bytes that the trailer
    /// declares valid, its height is that of the trailer, and its width, its
    /// offsets, its pixel format and its time stamp are those of the leader.
    /// Else the block is rejected.
    pub fn build_image_payload(self) -> (res: StreamResult<Payload>)
        requires
            self@.trailer.valid_payload_size <= usize::MAX,
        ensures
            result_view(res) == Block::outcome_of(self@.image_defect(), self@.built_image()),
            self@.image_defect() is Some ==> (res matches Err(StreamError::InvalidPayload(_))),
            self@.image_defect() is None ==> (res matches Ok(payload) && payload.image_info
                matches Some(info) && {
                &&& payload.id == self@.leader.block_id
                &&& payload.payload_type == PayloadType::Image
                &&& payload.payload == self.payload_buf
                &&& payload.valid_payload_size == self@.trailer.valid_payload_size
                &&& payload.timestamp == image_leader_of(self@.specific_leader).timestamp
                &&& info.image_size == self@.trailer.valid_payload_size
                &&& info.image_size == payload.valid_payload_size
                &&& info.width == image_leader_of(self@.specific_leader).width
                &&& info.height == le_u32(self@.specific_trailer, 0)
                &&& info.x_offset == image_leader_of(self@.specific_leader).x_offset
                &&& info.y_offset == image_leader_of(self@.specific_leader).y_offset
                &&& info.pixel_format == image_leader_of(self@.specific_leader).pixel_format
            }),
    {
        let leader = match self.leader.image_leader() {
            Ok(leader) => leader,
            Err(e) => { return Err(StreamError::InvalidPayload(e.describe())); },
        };
        let trailer = match self.trailer.image_trailer() {
            Ok(trailer) => trailer,
            Err(e) => { return Err(StreamError::InvalidPayload(e.describe())); },
        };
        let id = self.leader.block_id();
        let valid_payload_size = self.trailer.valid_payload_size() as usize;
        let image_info = Some(
            ImageInfo {
                width: leader.width as usize,
                height: trailer.actual_height as usize,
                x_offset: leader.x_offset as usize,
                y_offset: leader.y_offset as usize,
                pixel_format: leader.pixel_format,
                image_size: valid_payload_size,
            },
        );
        Ok(
            Payload {
                id,
                payload_type: PayloadType::Image,
                image_info,
                payload: self.payload_buf,
                valid_payload_size,
                timestamp: leader.timestamp,
            },
        )
    }

    /// Builds the payload of an image block with chunk records, whatever its
    /// status and however many bytes were read: `build` looks at those
    /// before. The bytes that the trailer declares valid lie in the buffer.
    ///
    /// The size of the image is that of the first record, which the backward
    /// walk from the end of the valid bytes finds. A payload is built only
    /// where records fill the valid bytes from offset 0 exactly. Where the
    /// records leave bytes above offset 0 from which the walk does not go on
    /// to offset 0, and where fewer than four bytes are valid, the block is
    /// rejected.
    pub fn build_image_extended_payload(self) -> (res: StreamResult<Payload>)
        requires
            self@.trailer.valid_payload_size <= self.payload_buf.len(),
        ensures
            result_view(res) == Block::outcome_of(
                self@.image_extended_defect(),
                self@.built_image_extended(),
            ),
            self@.image_extended_defect() is Some ==> (res matches Err(
                StreamError::InvalidPayload(_),
            )),
            res matches Ok(payload) ==> {
                &&& payload.id == self@.leader.block_id
                &&& payload.payload_type == PayloadType::ImageExtendedChunk
                &&& payload.payload == self.payload_buf
                &&& payload.valid_payload_size == self@.trailer.valid_payload_size
                &&& exists|sizes: Seq<nat>|
                    sizes.len() > 0 && #[trigger] records_fill(
                        self.payload_buf@,
                        sizes,
                        0,
                        self@.trailer.valid_payload_size as int,
                    ) && payload.image_info is Some && payload.image_info->0.image_size
                        == sizes[0]
            },
            forall|sizes: Seq<nat>, residual: int|
                0 < residual && #[trigger] records_fill(
                    self.payload_buf@,
                    sizes,
                    residual,
                    self@.trailer.valid_payload_size as int,
                ) && chunk_walk(self.payload_buf@, residual) !is ImageSize ==> (res matches Err(
                    StreamError::InvalidPayload(_),
                )),
            self@.trailer.valid_payload_size < CHUNK_SIZE_LEN && self@.specific_defect(
                IMAGE_LEADER_LEN as int,
                8,
            ) is None ==> (res matches Err(StreamError::InvalidPayload(message)) && message@
                == MSG_SIZE_FIELD_MISSING@),
    {
        proof {
            let valid = self@.trailer.valid_payload_size as int;
            if chunk_walk(self.payload_buf@, valid) is ImageSize {
                let sizes = lemma_walk_ends_at_zero(self.payload_buf@, valid);
                assert(records_fill(self.payload_buf@, sizes, 0, valid));
            }
            assert forall|sizes: Seq<nat>, residual: int|
                0 < residual && #[trigger] records_fill(
                    self.payload_buf@,
                    sizes,
                    residual,
                    valid,
                ) && chunk_walk(self.payload_buf@, residual) !is ImageSize implies chunk_walk(
                self.payload_buf@,
                valid,
            ) !is ImageSize by {
                lemma_walk_meets_residual(self.payload_buf@, sizes, residual, valid);
            }
        }
        let leader = match self.leader.image_leader() {
            Ok(leader) => leader,
            Err(e) => { return Err(StreamError::InvalidPayload(e.describe())); },
        };
        let trailer = match self.trailer.image_extended_chunk_trailer() {
            Ok(trailer) => trailer,
            Err(e) => { return Err(StreamError::InvalidPayload(e.describe())); },
        };
        let id = self.leader.block_id();
        let valid_payload_size = self.trailer.valid_payload_size() as usize;
        let image_size = match walk_chunks(self.payload_buf.as_slice(), valid_payload_size) {
            ChunkWalk::ImageSize(image_size) => image_size,
            ChunkWalk::SizeFieldMissing => {
                return Err(
                    StreamError::InvalidPayload(String::from_str(MSG_SIZE_FIELD_MISSING)),
                );
            },
            ChunkWalk::DataTooShort => {
                return Err(StreamError::InvalidPayload(String::from_str(MSG_DATA_TOO_SHORT)));
            },
        };
        let image_info = Some(
            ImageInfo {
                width: leader.width as usize,
                height: trailer.actual_height as usize,
                x_offset: leader.x_offset as usize,
                y_offset: leader.y_offset as usize,
                pixel_format: leader.pixel_format,
                image_size,
            },
        );
        Ok(
            Payload {
                id,
                payload_type: PayloadType::ImageExtendedChunk,
                image_info,
                payload: self.payload_buf,
                valid_payload_size,
                timestamp: leader.timestamp,
            },
        )
    }

    /// Builds the payload of a chunk block, whatever its status and however
    /// many bytes were read: `build` looks at those before.
    ///
    /// A leader and a trailer that are long enough for chunks give a chunk
    /// payload without image; else the block is rejected.
    pub fn build_chunk_payload(self) -> (res: StreamResult<Payload>)
        requires
            self@.trailer.valid_payload_size <= usize::MAX,
        ensures
            result_view(res) == Block::outcome_of(self@.chunk_defect(), self@.built_chunk()),
            self@.chunk_defect() is Some ==> (res matches Err(StreamError::InvalidPayload(_))),
            self@.chunk_defect() is None ==> (res matches Ok(payload) && {
                &&& payload.id == self@.leader.block_id
                &&& payload.payload_type == PayloadType::Chunk
                &&& payload.image_info is None
                &&& payload.payload == self.payload_buf
                &&& payload.valid_payload_size == self@.trailer.valid_payload_size
                &&& payload.timestamp == le_u64(self@.specific_leader, 0)
            }),
    {
        let leader = match self.leader.chunk_leader() {
            Ok(leader) => leader,
            Err(e) => { return Err(StreamError::InvalidPayload(e.describe())); },
        };
        match self.trailer.chunk_trailer() {
            Ok(_) => {},
            Err(e) => { return Err(StreamError::InvalidPayload(e.describe())); },
        }
        let id = self.leader.block_id();
        let valid_payload_size = self.trailer.valid_payload_size() as usize;
        Ok(
            Payload {
                id,
                payload_type: PayloadType::Chunk,
                image_info: None,
                payload: self.payload_buf,
                valid_payload_size,
                timestamp: leader.timestamp,
            },
        )
    }
}

/// The image of every image payload that is built has the size that the
/// trailer declares valid, and no more bytes are valid than were read.
pub proof fn lemma_image_size_is_valid_payload_size(block: Block)
    requires
        block.defect() is None,
        block.leader.payload_type == PayloadType::Image,
    ensures
        block.outcome() matches Ok(payload) && payload.image_info matches Some(info)
            && info.image_size == block.trailer.valid_payload_size,
        block.built().valid_payload_size <= block.read_payload_size,
{
}

/// An image block whose trailer reports success and declares no more bytes
/// valid than were read, and whose leader and trailer are long enough for an
/// image, gives exactly this payload: the ID and the time stamp of the leader,
/// the buffer of the block, and an image of the width, the offsets and the
/// format of the leader, of the height of the trailer and of the size that the
/// trailer declares valid.
pub proof fn lemma_image_block_is_built(block: Block)
    requires
        block.trailer.payload_status == PayloadStatus::Success,
        block.trailer.valid_payload_size <= block.read_payload_size,
        block.leader.payload_type == PayloadType::Image,
        block.specific_leader.len() >= IMAGE_LEADER_LEN,
        block.specific_trailer.len() >= 4,
    ensures
        block.outcome() == Ok::<Payload, StreamErrorView>(
            Payload {
                id: block.leader.block_id,
                payload_type: PayloadType::Image,
                image_info: Some(
                    ImageInfo {
                        width: image_leader_of(block.specific_leader).width as usize,
                        height: le_u32(block.specific_trailer, 0) as usize,
                        x_offset: image_leader_of(block.specific_leader).x_offset as usize,
                        y_offset: image_leader_of(block.specific_leader).y_offset as usize,
                        pixel_format: image_leader_of(block.specific_leader).pixel_format,
                        image_size: block.trailer.valid_payload_size as usize,
                    },
                ),
                payload: block.payload_buf,
                valid_payload_size: block.trailer.valid_payload_size as usize,
                timestamp: image_leader_of(block.specific_leader).timestamp,
            },
        ),
{
}

/// A block whose trailer reports success and declares more bytes valid than
/// were read is rejected, whatever it carries, with the message that names
/// the two numbers.
pub proof fn lemma_short_read_is_rejected(block: Block)
    requires
        block.trailer.payload_status == PayloadStatus::Success,
        block.trailer.valid_payload_size > block.read_payload_size,
    ensures
        block.outcome() == Err::<Payload, StreamErrorView>(
            StreamErrorView::InvalidPayload(
                size_mismatch_message(
                    block.trailer.valid_payload_size as nat,
                    block.read_payload_size as nat,
                ),
            ),
        ),
{
}

/// A block whose trailer does not report success is rejected, whatever it
/// carries, with the message that names the status.
pub proof fn lemma_failed_status_is_rejected(block: Block)
    requires
        block.trailer.payload_status != PayloadStatus::Success,
    ensures
        block.outcome() == Err::<Payload, StreamErrorView>(
            StreamErrorView::InvalidPayload(status_message(block.trailer.payload_status)),
        ),
{
}

/// An image block with chunk records of which fewer than four bytes are
/// valid has no room for a size field and is rejected for that.
pub proof fn lemma_missing_size_field_is_rejected(block: Block)
    requires
        block.trailer.payload_status == PayloadStatus::Success,
        block.trailer.valid_payload_size <= block.read_payload_size,
        block.leader.payload_type == PayloadType::ImageExtendedChunk,
        block.specific_leader.len() >= IMAGE_LEADER_LEN,
        block.specific_trailer.len() >= 8,
        block.trailer.valid_payload_size < CHUNK_SIZE_LEN,
    ensures
        block.outcome() == Err::<Payload, StreamErrorView>(
            StreamErrorView::InvalidPayload(MSG_SIZE_FIELD_MISSING@),
        ),
{
}

/// Every image payload with chunk records that is built has records that fill
/// its valid bytes from offset 0 exactly, and the size of its image is the
/// data size of the first of them.
pub proof fn lemma_extended_image_fills_payload(block: Block) -> (sizes: Seq<nat>)
    requires
        block.defect() is None,
        block.leader.payload_type == PayloadType::ImageExtendedChunk,
    ensures
        sizes.len() > 0,
        records_fill(block.payload_buf@, sizes, 0, block.trailer.valid_payload_size as int),
        block.outcome() matches Ok(payload) && payload.image_info matches Some(info)
            && info.image_size == sizes[0],
{
    lemma_walk_ends_at_zero(block.payload_buf@, block.trailer.valid_payload_size as int)
}

/// A block with chunk records whose valid bytes leave a residual above
/// offset 0 that holds no whole record is rejected: where records fill the
/// valid bytes down to `residual` and the walk from there fails, no payload is
/// built.
pub proof fn lemma_residual_is_rejected(block: Block, sizes: Seq<nat>, residual: int)
    requires
        block.leader.payload_type == PayloadType::ImageExtendedChunk,
        0 < residual,
        records_fill(block.payload_buf@, sizes, residual, block.trailer.valid_payload_size as int),
        chunk_walk(block.payload_buf@, residual) !is ImageSize,
    ensures
        block.outcome() matches Err(StreamErrorView::InvalidPayload(_)),
{
    lemma_walk_meets_residual(
        block.payload_buf@,
        sizes,
        residual,
        block.trailer.valid_payload_size as int,
    );
}

} // verus!
