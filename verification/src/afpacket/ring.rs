//! The geometry of a ring, the two request records that carry it to the
//! kernel, the mapping of the ring's memory, and the header that opens every
//! frame of a version 3 ring.

use crate::afpacket::error::Error;
use crate::afpacket::kernel::{heard, Answer, AnswerView, Request, RequestView, Step, StepView};
use crate::afpacket::time::{secs_of, subsec_nanos_of};
use crate::endian::{be16, be32, read_be16, read_be32};
use std::time::Duration;
use vstd::prelude::*;
use vstd::std_specs::convert::FromSpecImpl;

verus! {

/// The block-retire timeout of a ring that names none, in milliseconds.
pub const DEFAULT_BLOCK_TIMEOUT_MILLIS: u32 = 64;

/// Whether `timeout` is the default block-retire timeout: no whole second
/// and [`DEFAULT_BLOCK_TIMEOUT_MILLIS`] milliseconds.
pub open spec fn is_default_block_timeout(timeout: Duration) -> bool {
    &&& secs_of(timeout) == 0
    &&& subsec_nanos_of(timeout) == DEFAULT_BLOCK_TIMEOUT_MILLIS * 1_000_000
}

/// The block-retire timeout of a ring that names none.
pub fn default_block_timeout() -> (timeout: Duration)
    ensures
        is_default_block_timeout(timeout),
{
    Duration::from_millis(64)
}

/// The whole milliseconds of `timeout`, seconds included.
pub open spec fn millis_of(timeout: Duration) -> int {
    secs_of(timeout) * 1000 + subsec_nanos_of(timeout) / 1_000_000
}

/// `millis` as a 32-bit field holds it: itself, or the largest 32-bit
/// number where it is larger than that.
pub open spec fn saturated(millis: int) -> u32 {
    if millis > u32::MAX {
        u32::MAX
    } else {
        millis as u32
    }
}

/// The most whole seconds of a timeout whose milliseconds may still fit 32
/// bits.
const MILLIS_SECS_MAX: u64 = 4_294_967;

/// The whole milliseconds of `timeout` as a 32-bit field holds them.
fn whole_millis(timeout: &Duration) -> (millis: u32)
    ensures
        millis == saturated(millis_of(*timeout)),
{
    let secs: u64 = timeout.as_secs();
    let below: u32 = timeout.subsec_millis();
    if secs > MILLIS_SECS_MAX {
        return u32::MAX;
    }
    let total: u64 = secs * 1000 + below as u64;
    if total > u32::MAX as u64 {
        u32::MAX
    } else {
        total as u32
    }
}

/// The geometry of a ring, whatever the ABI version.
#[derive(Debug, Clone, Copy)]
pub struct RingOptions {
    pub frame_size: u32,
    pub num_of_frames: u32,
    pub block_size: u32,
    pub num_of_blocks: u32,
    /// How long the kernel may hold a block that is not yet full. Only
    /// version 3 knows of it, in whole milliseconds.
    pub retire_block_timeout: Option<Duration>,
}

impl RingOptions {
    /// The retire timeout as the newer request record carries it: the
    /// whole timeout in milliseconds, seconds included, as far as the
    /// 32-bit field holds it, and the default where the options name no
    /// timeout.
    pub open spec fn retire_millis(self) -> u32 {
        match self.retire_block_timeout {
            Some(timeout) => saturated(millis_of(timeout)),
            None => DEFAULT_BLOCK_TIMEOUT_MILLIS,
        }
    }

    /// The bytes that the whole ring takes: every block at full size. See
    /// [`lemma_ring_bytes_fit`].
    pub open spec fn ring_bytes(self) -> u64 {
        (self.block_size * self.num_of_blocks) as u64
    }
}

impl Default for RingOptions {
    /// 160000 frames of 2048 bytes, in 128 blocks of 128 frames' size, with
    /// the default retire timeout.
    fn default() -> (options: RingOptions)
        ensures
            options.frame_size == 2048,
            options.num_of_frames == 160000,
            options.block_size == 2048 * 128,
            options.num_of_blocks == 128,
            options.retire_block_timeout matches Some(timeout) && is_default_block_timeout(
                timeout,
            ),
    {
        RingOptions {
            frame_size: 2048,
            num_of_frames: 160000,
            block_size: 2048 * 128,
            num_of_blocks: 128,
            retire_block_timeout: Some(default_block_timeout()),
        }
    }
}

/// The ring request of versions 1 and 2: four 32-bit fields, in this order.
#[derive(Debug, Clone, Copy, PartialEq, Eq, Structural)]
pub struct TPacketReq {
    pub block_size: u32,
    pub num_of_blocks: u32,
    pub frame_size: u32,
    pub num_of_frames: u32,
}

impl From<&RingOptions> for TPacketReq {
    fn from(options: &RingOptions) -> (req: TPacketReq)
        ensures
            req == TPacketReq::of(*options),
    {
        TPacketReq {
            block_size: options.block_size,
            num_of_blocks: options.num_of_blocks,
            frame_size: options.frame_size,
            num_of_frames: options.num_of_frames,
        }
    }
}

impl FromSpecImpl<&RingOptions> for TPacketReq {
    open spec fn obeys_from_spec() -> bool {
        true
    }

    open spec fn from_spec(options: &RingOptions) -> TPacketReq {
        TPacketReq::of(*options)
    }
}

impl TPacketReq {
    /// The older request for a ring of this geometry: it carries the
    /// geometry and nothing else.
    pub open spec fn of(options: RingOptions) -> TPacketReq {
        TPacketReq {
            block_size: options.block_size,
            num_of_blocks: options.num_of_blocks,
            frame_size: options.frame_size,
            num_of_frames: options.num_of_frames,
        }
    }

    /// The record as the kernel reads it: its 32-bit fields in memory order.
    pub open spec fn layout(self) -> Seq<u32> {
        seq![self.block_size, self.num_of_blocks, self.frame_size, self.num_of_frames]
    }

    /// The record as the kernel reads it.
    pub fn words(&self) -> (words: [u32; 4])
        ensures
            words@ == self.layout(),
    {
        [self.block_size, self.num_of_blocks, self.frame_size, self.num_of_frames]
    }
}

/// The ring request of version 3: seven 32-bit fields, in this order.
#[derive(Debug, Clone, Copy, PartialEq, Eq, Structural)]
pub struct TPacketReq3 {
    pub frame_size: u32,
    pub num_of_frames: u32,
    pub block_size: u32,
    pub num_of_blocks: u32,
    /// The whole retire timeout in milliseconds.
    pub retire_block_timeout: u32,
    pub sizeof_private: u32,
    pub feature_req_word: u32,
}

impl From<&RingOptions> for TPacketReq3 {
    fn from(options: &RingOptions) -> (req: TPacketReq3)
        ensures
            req == TPacketReq3::of(*options),
    {
        TPacketReq3 {
            block_size: options.block_size,
            num_of_blocks: options.num_of_blocks,
            frame_size: options.frame_size,
            num_of_frames: options.num_of_frames,
            retire_block_timeout: match options.retire_block_timeout {
                Some(timeout) => whole_millis(&timeout),
                None => DEFAULT_BLOCK_TIMEOUT_MILLIS,
            },
            sizeof_private: 0,
            feature_req_word: 0,
        }
    }
}

impl FromSpecImpl<&RingOptions> for TPacketReq3 {
    open spec fn obeys_from_spec() -> bool {
        true
    }

    open spec fn from_spec(options: &RingOptions) -> TPacketReq3 {
        TPacketReq3::of(*options)
    }
}

impl TPacketReq3 {
    /// The newer request for a ring of this geometry: it carries the
    /// geometry and the retire timeout, and asks for no private area and
    /// for no feature.
    pub open spec fn of(options: RingOptions) -> TPacketReq3 {
        TPacketReq3 {
            block_size: options.block_size,
            num_of_blocks: options.num_of_blocks,
            frame_size: options.frame_size,
            num_of_frames: options.num_of_frames,
            retire_block_timeout: options.retire_millis(),
            sizeof_private: 0,
            feature_req_word: 0,
        }
    }

    /// The record as the kernel reads it: its 32-bit fields in memory order.
    pub open spec fn layout(self) -> Seq<u32> {
        seq![
            self.frame_size,
            self.num_of_frames,
            self.block_size,
            self.num_of_blocks,
            self.retire_block_timeout,
            self.sizeof_private,
            self.feature_req_word,
        ]
    }

    /// The record as the kernel reads it.
    pub fn words(&self) -> (words: [u32; 7])
        ensures
            words@ == self.layout(),
    {
        [
            self.frame_size,
            self.num_of_frames,
            self.block_size,
            self.num_of_blocks,
            self.retire_block_timeout,
            self.sizeof_private,
            self.feature_req_word,
        ]
    }
}

/// A ring request in the layout of one ABI generation.
#[derive(Debug, Clone, Copy, PartialEq, Eq, Structural)]
pub enum RingRequest {
    /// Versions 1 and 2.
    Older(TPacketReq),
    /// Version 3.
    Newer(TPacketReq3),
}

impl RingRequest {
    /// The record as the kernel reads it: its 32-bit fields in memory order.
    pub open spec fn layout(self) -> Seq<u32> {
        match self {
            RingRequest::Older(req) => req.layout(),
            RingRequest::Newer(req) => req.layout(),
        }
    }

    /// The record as the kernel reads it.
    pub fn words(&self) -> (words: Vec<u32>)
        ensures
            words@ == self.layout(),
    {
        match self {
            RingRequest::Older(req) => vec![
                req.block_size,
                req.num_of_blocks,
                req.frame_size,
                req.num_of_frames,
            ],
            RingRequest::Newer(req) => vec![
                req.frame_size,
                req.num_of_frames,
                req.block_size,
                req.num_of_blocks,
                req.retire_block_timeout,
                req.sizeof_private,
                req.feature_req_word,
            ],
        }
    }
}

/// The memory of a ring, mapped into this process and shared with the
/// kernel. It is valid only while the socket of the ring is open.
#[derive(Debug, Clone, Copy, PartialEq, Eq, Structural)]
pub struct Mapping {
    /// Where the mapping starts.
    pub addr: usize,
    /// How many bytes it holds.
    pub length: u64,
}

/// The bytes of a ring can be counted in 64 bits, whatever its geometry:
/// [`RingOptions::ring_bytes`] is the product of block size and block
/// count, and never a remainder of it.
pub proof fn lemma_ring_bytes_fit(options: RingOptions)
    ensures
        options.ring_bytes() == options.block_size * options.num_of_blocks,
{
    assert(0 <= options.block_size * options.num_of_blocks <= u64::MAX) by (nonlinear_arith)
        requires
            0 <= options.block_size <= u32::MAX,
            0 <= options.num_of_blocks <= u32::MAX,
    ;
}

/// How mapping the ring of the socket `fd` goes on. One call asks for
/// all the bytes of the ring, and its answer is read as the address of a
/// mapping: the call fails, or gives the mapping at the address returned,
/// of the length that was asked for.
pub open spec fn map_step(fd: i32, options: RingOptions, event: Option<AnswerView>) -> StepView<
    Mapping,
> {
    let request = RequestView::MapRing { fd, length: options.ring_bytes() };
    match event {
        None => StepView::Call(request),
        Some(answer) => if answer.request == request {
            match answer.reply.address_outcome() {
                Ok(addr) => StepView::Done(Ok(Mapping { addr, length: options.ring_bytes() })),
                Err(error) => StepView::Done(Err(error)),
            }
        } else {
            StepView::Done(Err(Error::InvalidInput))
        },
    }
}

/// Maps the memory of the ring that was configured on the socket `fd` with
/// the geometry `req`.
pub fn mmap_rx_ring(fd: i32, req: &RingOptions, event: Option<Answer>) -> (step: Step<Mapping>)
    ensures
        step.model() == map_step(fd, *req, heard(event)),
{
    proof {
        lemma_ring_bytes_fit(*req);
    }
    let length: u64 = (req.block_size as u64) * (req.num_of_blocks as u64);
    match event {
        None => Step::Call(Request::MapRing { fd, length }),
        Some(answer) => match answer.request {
            Request::MapRing { fd: asked, length: bytes } => if asked == fd && bytes == length {
                match answer.reply.address() {
                    Ok(addr) => Step::Done(Ok(Mapping { addr, length })),
                    Err(error) => Step::Done(Err(error)),
                }
            } else {
                Step::Done(Err(Error::InvalidInput))
            },
            _ => Step::Done(Err(Error::InvalidInput)),
        },
    }
}

/// The bytes that the frame header of version 3 takes.
pub const TPACKET3_HDRLEN: usize = 28;

/// The header that opens every frame of a version 3 ring, decoded. In
/// the frame each field is a big-endian number, and the fields follow each
/// other in this order without gaps.
#[derive(Debug, Clone, Copy, PartialEq, Eq, Structural)]
pub struct TPacketV3Header {
    /// The distance from this frame to the next one.
    pub tp_next_offset: u32,
    /// When the frame was captured: the seconds.
    pub tp_sec: u32,
    /// When the frame was captured: the nanoseconds within the second.
    pub tp_nsec: u32,
    /// The bytes that were captured.
    pub tp_snaplen: u32,
    /// The bytes that the frame had on the wire.
    pub tp_len: u32,
    /// The status bits of the frame.
    pub tp_status: u32,
    /// Where in the frame the link-layer header starts.
    pub tp_mac: u16,
    /// Where in the frame the network-layer header starts.
    pub tp_net: u16,
}

impl TPacketV3Header {
    /// The header that the first [`TPACKET3_HDRLEN`] bytes of `bytes` hold.
    pub open spec fn decode(bytes: Seq<u8>) -> TPacketV3Header {
        TPacketV3Header {
            tp_next_offset: be32(bytes, 0),
            tp_sec: be32(bytes, 4),
            tp_nsec: be32(bytes, 8),
            tp_snaplen: be32(bytes, 12),
            tp_len: be32(bytes, 16),
            tp_status: be32(bytes, 20),
            tp_mac: be16(bytes, 24),
            tp_net: be16(bytes, 26),
        }
    }
}

/// What every frame header tells, whatever its version.
pub trait TPacketHeader {
    /// The seconds of the capture time.
    spec fn seconds(&self) -> u32;

    /// The nanoseconds of the capture time that the header adds to the
    /// seconds.
    spec fn nanoseconds(&self) -> u32;

    /// When the frame was captured: the seconds and the nanoseconds of the
    /// header as one duration, in which every full billion of nanoseconds
    /// counts as seconds.
    fn timestamp(&self) -> (timestamp: Duration)
        ensures
            secs_of(timestamp) == self.seconds() + self.nanoseconds() / 1_000_000_000,
            subsec_nanos_of(timestamp) == self.nanoseconds() % 1_000_000_000,
    ;
}

/// A reader of the frame header at the start of a frame of a version 3
/// ring. It holds at least [`TPACKET3_HDRLEN`] bytes.
#[derive(Debug)]
pub struct TPacketV3HeaderParser<'a> {
    raw: &'a [u8],
}

impl<'a> View for TPacketV3HeaderParser<'a> {
    type V = Seq<u8>;

    /// The bytes of the frame, header first.
    closed spec fn view(&self) -> Seq<u8> {
        self.raw@
    }
}

impl<'a> TPacketV3HeaderParser<'a> {
    #[verifier::type_invariant]
    spec fn holds_a_header(self) -> bool {
        self.raw@.len() >= TPACKET3_HDRLEN
    }

    /// A reader of the header of the frame `raw_header`, unless the frame
    /// is too short to hold a header.
    pub fn from_raw(raw_header: &'a [u8]) -> (parser: Option<TPacketV3HeaderParser<'a>>)
        ensures
            parser is Some <==> raw_header@.len() >= TPACKET3_HDRLEN,
            parser matches Some(p) ==> p@ == raw_header@,
    {
        if raw_header.len() < TPACKET3_HDRLEN {
            return None;
        }
        Some(TPacketV3HeaderParser { raw: raw_header })
    }

    /// Every field of the header.
    pub fn header(&self) -> (header: TPacketV3Header)
        ensures
            self@.len() >= TPACKET3_HDRLEN,
            header == TPacketV3Header::decode(self@),
    {
        proof {
            use_type_invariant(self);
        }
        TPacketV3Header {
            tp_next_offset: read_be32(self.raw, 0),
            tp_sec: read_be32(self.raw, 4),
            tp_nsec: read_be32(self.raw, 8),
            tp_snaplen: read_be32(self.raw, 12),
            tp_len: read_be32(self.raw, 16),
            tp_status: read_be32(self.raw, 20),
            tp_mac: read_be16(self.raw, 24),
            tp_net: read_be16(self.raw, 26),
        }
    }
}

impl<'a> TPacketHeader for TPacketV3HeaderParser<'a> {
    open spec fn seconds(&self) -> u32 {
        be32(self@, 4)
    }

    open spec fn nanoseconds(&self) -> u32 {
        be32(self@, 8)
    }

    fn timestamp(&self) -> (timestamp: Duration) {
        proof {
            use_type_invariant(self);
        }
        Duration::new(read_be32(self.raw, 4) as u64, read_be32(self.raw, 8))
    }
}

/// The newer request carries the whole retire timeout: a timeout of
/// `millis` milliseconds, as `Duration::from_millis` makes it, is written as
/// `millis`, seconds included, and as the largest 32-bit number where
/// `millis` is larger than that.
pub proof fn lemma_request_keeps_timeout(options: RingOptions, timeout: Duration, millis: u64)
    requires
        options.retire_block_timeout == Some(timeout),
        secs_of(timeout) == millis / 1000,
        subsec_nanos_of(timeout) == (millis % 1000) * 1_000_000,
    ensures
        millis_of(timeout) == millis,
        TPacketReq3::of(options).retire_block_timeout == saturated(millis as int),
        millis <= u32::MAX ==> TPacketReq3::of(options).retire_block_timeout == millis,
{
}

/// Both request records describe the same ring: the four geometry fields
/// of the newer record equal, each in value, those of the older one. Only
/// their order in memory differs, and the newer record has three fields
/// more.
pub proof fn lemma_requests_agree_on_geometry(options: RingOptions)
    ensures
        TPacketReq3::of(options).frame_size == TPacketReq::of(options).frame_size,
        TPacketReq3::of(options).num_of_frames == TPacketReq::of(options).num_of_frames,
        TPacketReq3::of(options).block_size == TPacketReq::of(options).block_size,
        TPacketReq3::of(options).num_of_blocks == TPacketReq::of(options).num_of_blocks,
        TPacketReq3::of(options).layout().subrange(0, 2) == TPacketReq::of(
            options,
        ).layout().subrange(2, 4),
        TPacketReq3::of(options).layout().subrange(2, 4) == TPacketReq::of(
            options,
        ).layout().subrange(0, 2),
{
}

/// A request record gives back the geometry it was built from: the sizes
/// and counts of frames and blocks read from either record are those of the
/// options.
pub proof fn lemma_request_keeps_geometry(options: RingOptions)
    ensures
        TPacketReq::of(options).frame_size == options.frame_size,
        TPacketReq::of(options).num_of_frames == options.num_of_frames,
        TPacketReq::of(options).block_size == options.block_size,
        TPacketReq::of(options).num_of_blocks == options.num_of_blocks,
        TPacketReq3::of(options).frame_size == options.frame_size,
        TPacketReq3::of(options).num_of_frames == options.num_of_frames,
        TPacketReq3::of(options).block_size == options.block_size,
        TPacketReq3::of(options).num_of_blocks == options.num_of_blocks,
{
}

} // verus!
