//! The streaming loop: the worker that turns the byte stream of the receive
//! channel into payloads.
//!
//! The loop is a state machine that does no work on the bus itself. Each of
//! its steps takes what the outside found (whether cancellation was
//! signalled, a buffer that the consumer handed back, the outcome of a read)
//! and says what to do next. Whoever drives it starts with
//! `Action::PollCancellation` and goes on until `Action::Complete`.
//!
//! One iteration reads one block: leader, payload, trailer. A read that fails
//! ends the iteration and keeps the payload buffer for the next one; a block
//! that was read and is rejected gives its buffer up with the error.

use crate::channel::ReceiveChannel;
use crate::error::{result_view, stream_error_of, StreamError, StreamErrorView, StreamResult};
use crate::payload::{Block, Payload, PayloadBuilder};
use crate::protocol::{
    generic_leader_of, generic_trailer_of, leader_defect, Leader, PayloadType,
    GENERIC_LEADER_LEN, GENERIC_TRAILER_LEN,
};
use crate::stream_params::StreamParams;
use crate::stream_read::{
    leader_outcome, leader_received, lemma_transfer_plan, planned_len, read_leader, read_payload,
    read_trailer, trailer_outcome, trailer_received, transfer_plan, Transfer,
};
use crate::transport::{LibUsbError, TransportError, TransportResult, UsbRequest};
use std::time::Duration;
use vstd::pervasive::unreached;
use vstd::prelude::*;

verus! {

/// What a look at the cancellation signal found.
#[derive(Clone, Copy, Debug, PartialEq, Eq, Structural)]
pub enum CancellationPoll {
    /// Nothing was signalled and the sender is alive.
    Pending,
    /// Cancellation was signalled.
    Signalled,
    /// The sender of the signal was dropped.
    SenderDropped,
}

/// Where the loop stands.
#[derive(Clone, Copy, Debug, PartialEq, Eq, Structural)]
pub enum Phase {
    /// Between two iterations: the cancellation signal is looked at next.
    Boundary,
    /// The consumer is asked for a buffer that it is done with.
    AwaitBuffer,
    /// The leader is being read.
    AwaitLeader,
    /// The payload is being read; the payload buffer is lent out.
    AwaitPayload,
    /// The trailer is being read.
    AwaitTrailer,
    /// The loop has ended.
    Finished,
}

/// The most reads that the loop makes from a phase on before it looks at the
/// cancellation signal again: leader, payload and trailer.
pub open spec fn reads_left(phase: Phase) -> nat {
    match phase {
        Phase::Boundary | Phase::Finished => 0,
        Phase::AwaitBuffer | Phase::AwaitLeader => 3,
        Phase::AwaitPayload => 2,
        Phase::AwaitTrailer => 1,
    }
}

/// What the loop asks its driver to do next.
#[derive(Debug, PartialEq, Eq)]
pub enum Action {
    /// Look at the cancellation signal without blocking, then call
    /// `on_cancellation`.
    PollCancellation,
    /// Ask the consumer for a recycled payload without blocking, then call
    /// `on_recycled`.
    TryRecvBuffer,
    /// Carry out the transfer into a buffer for the leader, then call
    /// `on_leader` with the outcome and the buffer. Without a transfer the
    /// outcome is `Ok(0)`.
    ReceiveLeader(Option<UsbRequest>),
    /// Submit the transfers of the loop into `buf`, wait for each of them for
    /// at most `timeout`, then call `on_payload` with `buf` and the number of
    /// bytes that arrived in all, or with the first failure.
    ReadPayload { buf: Vec<u8>, timeout: Duration },
    /// Carry out the transfer into a buffer for the trailer, then call
    /// `on_trailer` with the outcome and the buffer. Without a transfer the
    /// outcome is `Ok(0)`.
    ReceiveTrailer(Option<UsbRequest>),
    /// Signal completion: the loop has ended.
    Complete,
}

/// What one step of the loop gives: a result for the consumer, if there is
/// one, and the next action. The result is sent without blocking; a consumer
/// that does not take it loses it.
#[derive(Debug, PartialEq, Eq)]
pub struct Step {
    pub report: Option<StreamResult<Payload>>,
    pub next: Action,
}

/// A report with its error by its view.
pub open spec fn report_view(report: Option<StreamResult<Payload>>) -> Option<
    Result<Payload, StreamErrorView>,
> {
    match report {
        Some(res) => Some(result_view(res)),
        None => None,
    }
}

/// Whether an error of the leader read is reported to the consumer.
pub open spec fn is_fatal(e: StreamErrorView) -> bool {
    e is Io || e is Disconnected
}

/// `len` bytes that are 0.
pub open spec fn zeros(len: nat) -> Seq<u8> {
    Seq::new(len, |i: int| 0u8)
}

/// The bytes `s` cut or filled with 0 to the length `len`.
pub open spec fn resized(s: Seq<u8>, len: nat) -> Seq<u8> {
    if len <= s.len() {
        s.subrange(0, len as int)
    } else {
        s + zeros((len - s.len()) as nat)
    }
}

/// Cuts or fills a buffer to the length `len`.
fn sized(buf: Vec<u8>, len: usize) -> (res: Vec<u8>)
    ensures
        res@ == resized(buf@, len as nat),
        buf@.len() == len ==> res == buf,
{
    if buf.len() != len {
        let mut res = buf;
        res.resize(len, 0u8);
        assert(res@ =~= resized(buf@, len as nat));
        res
    } else {
        assert(buf@ =~= resized(buf@, len as nat));
        buf
    }
}

/// The transfer that receives `len` bytes of the stream, if any are asked for.
pub open spec fn scratch_request(inner: ReceiveChannel, params: StreamParams, len: usize) -> Option<
    UsbRequest,
> {
    if len == 0 {
        None
    } else {
        Some(
            UsbRequest::ReadBulk {
                endpoint: inner.iface_info.bulk_in_ep,
                len,
                timeout: params.timeout,
            },
        )
    }
}

/// Copies `src` over `dst`, which keeps what it has allocated.
fn copy_over(dst: &mut Vec<u8>, src: &[u8])
    ensures
        final(dst)@ == src@,
{
    dst.clear();
    let mut i: usize = 0;
    while i < src.len()
        invariant
            i <= src@.len(),
            dst@ == src@.subrange(0, i as int),
        decreases src@.len() - i,
    {
        dst.push(src[i]);
        i = i + 1;
    }
    assert(src@.subrange(0, i as int) =~= src@);
}

/// State of the streaming loop.
pub struct StreamingLoop {
    inner: ReceiveChannel,
    params: StreamParams,
    transfers: Vec<Transfer>,
    phase: Phase,
    payload_buf: Option<Vec<u8>>,
    leader: Vec<u8>,
    read_payload_size: usize,
}

impl StreamingLoop {
    /// The channel that the loop reads.
    pub closed spec fn inner(&self) -> ReceiveChannel {
        self.inner
    }

    /// The parameters that the loop was started with.
    pub closed spec fn spec_params(&self) -> StreamParams {
        self.params
    }

    /// The transfers of a payload read.
    pub closed spec fn spec_transfers(&self) -> Seq<Transfer> {
        self.transfers@
    }

    /// Where the loop stands.
    pub closed spec fn spec_phase(&self) -> Phase {
        self.phase
    }

    /// The payload buffer that the loop holds.
    pub closed spec fn payload_buf(&self) -> Option<Vec<u8>> {
        self.payload_buf
    }

    /// The bytes of the leader of the block that is being read.
    pub closed spec fn leader(&self) -> Seq<u8> {
        self.leader@
    }

    /// Number of payload bytes that were read of the block.
    pub closed spec fn read_payload_size(&self) -> usize {
        self.read_payload_size
    }

    /// The transfer that reads a leader, if one is needed.
    pub open spec fn leader_request(&self) -> Option<UsbRequest> {
        scratch_request(self.inner(), self.spec_params(), self.spec_params().leader_size)
    }

    /// The transfer that reads a trailer, if one is needed.
    pub open spec fn trailer_request(&self) -> Option<UsbRequest> {
        scratch_request(self.inner(), self.spec_params(), self.spec_params().trailer_size)
    }

    /// The maximum payload size of the parameters.
    pub open spec fn maximum_payload_size(&self) -> int {
        self.spec_params().spec_maximum_payload_size()
    }

    /// What holds of the loop at every step: the maximum payload size is a
    /// machine word and the transfers are those that the parameters ask for;
    /// the loop holds a payload buffer of that size while it reads leader or
    /// trailer, and none while it asks for one or has lent it out; after the
    /// payload it holds a leader that was decoded and no more bytes were read
    /// than the buffer has.
    pub open spec fn wf(&self) -> bool {
        &&& self.spec_params().is_addressable()
        &&& self.spec_transfers() == transfer_plan(self.spec_params())
        &&& self.payload_buf() matches Some(buf) ==> buf@.len() == self.maximum_payload_size()
        &&& self.spec_phase() == Phase::AwaitLeader || self.spec_phase() == Phase::AwaitTrailer
            ==> self.payload_buf() is Some
        &&& self.spec_phase() == Phase::AwaitBuffer || self.spec_phase() == Phase::AwaitPayload
            ==> self.payload_buf() is None
        &&& self.spec_phase() == Phase::AwaitPayload || self.spec_phase() == Phase::AwaitTrailer
            ==> leader_defect(self.leader()) is None
        &&& self.spec_phase() == Phase::AwaitTrailer ==> self.read_payload_size()
            <= self.maximum_payload_size()
    }

    /// The block that the loop has read, with the bytes `trailer` in the
    /// buffer of the trailer.
    pub open spec fn block(&self, trailer: Seq<u8>) -> Block {
        Block {
            leader: generic_leader_of(self.leader()),
            specific_leader: self.leader().subrange(
                GENERIC_LEADER_LEN as int,
                self.leader().len() as int,
            ),
            payload_buf: self.payload_buf()->0,
            read_payload_size: self.read_payload_size(),
            trailer: generic_trailer_of(trailer),
            specific_trailer: trailer.subrange(GENERIC_TRAILER_LEN as int, trailer.len() as int),
        }
    }

    /// A loop at its first iteration boundary, without a payload buffer.
    pub fn new(inner: ReceiveChannel, params: StreamParams) -> (worker: Self)
        requires
            params.is_addressable(),
        ensures
            worker.wf(),
            worker.inner() == inner,
            worker.spec_params() == params,
            worker.spec_phase() == Phase::Boundary,
            worker.payload_buf() is None,
    {
        let transfers = match read_payload(&params, params.maximum_payload_size()) {
            Ok(transfers) => transfers,
            Err(_) => unreached(),
        };
        Self {
            inner,
            params,
            transfers,
            phase: Phase::Boundary,
            payload_buf: None,
            leader: Vec::new(),
            read_payload_size: 0,
        }
    }

    /// The transfers of a payload read: they fill a buffer of the maximum
    /// payload size without gaps.
    pub fn transfers(&self) -> (transfers: &[Transfer])
        requires
            self.wf(),
        ensures
            transfers@ == transfer_plan(self.spec_params()),
            planned_len(transfers@) == self.maximum_payload_size(),
    {
        proof {
            lemma_transfer_plan(self.params);
        }
        self.transfers.as_slice()
    }

    /// The parameters that the loop was started with.
    pub fn params(&self) -> (params: &StreamParams)
        ensures
            *params == self.spec_params(),
    {
        &self.params
    }

    /// Where the loop stands.
    pub fn phase(&self) -> (phase: Phase)
        ensures
            phase == self.spec_phase(),
    {
        self.phase
    }

    /// The action that reads the leader.
    fn receive_leader(&self) -> (action: Action)
        ensures
            action == Action::ReceiveLeader(self.leader_request()),
    {
        match read_leader(&self.inner, &self.params, self.params.leader_size) {
            Ok(request) => Action::ReceiveLeader(request),
            Err(_) => unreached(),
        }
    }

    /// Takes what the look at the cancellation signal found. The loop ends
    /// where cancellation was signalled or the sender was dropped. Else a new
    /// iteration begins: with the payload buffer that the last one kept, or,
    /// where it kept none, by asking the consumer for one.
    pub fn on_cancellation(&mut self, poll: CancellationPoll) -> (action: Action)
        requires
            old(self).wf(),
            old(self).spec_phase() == Phase::Boundary,
        ensures
            final(self).wf(),
            final(self).inner() == old(self).inner(),
            final(self).spec_params() == old(self).spec_params(),
            final(self).payload_buf() == old(self).payload_buf(),
            poll != CancellationPoll::Pending ==> final(self).spec_phase() == Phase::Finished
                && action == Action::Complete,
            poll == CancellationPoll::Pending && old(self).payload_buf() is Some ==> {
                &&& final(self).spec_phase() == Phase::AwaitLeader
                &&& action == Action::ReceiveLeader(old(self).leader_request())
            },
            poll == CancellationPoll::Pending && old(self).payload_buf() is None ==> {
                &&& final(self).spec_phase() == Phase::AwaitBuffer
                &&& action == Action::TryRecvBuffer
            },
    {
        match poll {
            CancellationPoll::Pending => {
                if self.payload_buf.is_some() {
                    self.phase = Phase::AwaitLeader;
                    self.receive_leader()
                } else {
                    self.phase = Phase::AwaitBuffer;
                    Action::TryRecvBuffer
                }
            },
            _ => {
                self.phase = Phase::Finished;
                Action::Complete
            },
        }
    }

    /// Takes the payload that the consumer handed back, if it had one. Its
    /// buffer is cut or filled with 0 to the maximum payload size; without
    /// one a buffer of that size is made. The leader is read next.
    pub fn on_recycled(&mut self, recycled: Option<Payload>) -> (action: Action)
        requires
            old(self).wf(),
            old(self).spec_phase() == Phase::AwaitBuffer,
        ensures
            final(self).wf(),
            final(self).inner() == old(self).inner(),
            final(self).spec_params() == old(self).spec_params(),
            final(self).spec_phase() == Phase::AwaitLeader,
            action == Action::ReceiveLeader(old(self).leader_request()),
            final(self).payload_buf() matches Some(buf) && buf@ == (match recycled {
                Some(payload) => resized(payload.payload@, old(self).maximum_payload_size() as nat),
                None => zeros(old(self).maximum_payload_size() as nat),
            }),
            recycled matches Some(payload) ==> {
                let kept = final(self).payload_buf() == Some(payload.payload);
                payload.payload@.len() == old(self).maximum_payload_size() ==> kept
            },
    {
        let maximum_payload_size = self.params.maximum_payload_size();
        let payload_buf = match recycled {
            Some(payload) => sized(payload.payload, maximum_payload_size),
            None => {
                let buf = vec![0u8; maximum_payload_size];
                assert(buf@ =~= zeros(maximum_payload_size as nat));
                buf
            },
        };
        self.payload_buf = Some(payload_buf);
        self.phase = Phase::AwaitLeader;
        self.receive_leader()
    }

    /// Takes the outcome of the leader read and the buffer of the leader.
    ///
    /// Where the read failed or the bytes are no leader, the iteration ends:
    /// the payload buffer is kept, and the error is reported only if it is
    /// fatal. Else the payload is read next, into the payload buffer, which
    /// is lent out with the action.
    pub fn on_leader(&mut self, outcome: TransportResult<usize>, buf: &[u8]) -> (step: Step)
        requires
            old(self).wf(),
            old(self).spec_phase() == Phase::AwaitLeader,
        ensures
            final(self).wf(),
            final(self).inner() == old(self).inner(),
            final(self).spec_params() == old(self).spec_params(),
            reads_left(final(self).spec_phase()) < reads_left(old(self).spec_phase()),
            step.next != Action::Complete,
            match leader_outcome(outcome, buf@) {
                Some(e) => {
                    &&& final(self).spec_phase() == Phase::Boundary
                    &&& final(self).payload_buf() == old(self).payload_buf()
                    &&& step.next == Action::PollCancellation
                    &&& report_view(step.report) == (if is_fatal(e) {
                        Some(Err::<Payload, StreamErrorView>(e))
                    } else {
                        None
                    })
                },
                None => {
                    &&& final(self).spec_phase() == Phase::AwaitPayload
                    &&& final(self).payload_buf() is None
                    &&& final(self).leader() == buf@
                    &&& step.report is None
                    &&& step.next matches Action::ReadPayload { buf: lent, timeout }
                    &&& Some(lent) == old(self).payload_buf()
                    &&& timeout == old(self).spec_params().timeout
                },
            },
    {
        match leader_received(outcome, buf) {
            Err(e) => {
                self.phase = Phase::Boundary;
                let report = if e.is_fatal() {
                    Some(Err(e))
                } else {
                    None
                };
                Step { report, next: Action::PollCancellation }
            },
            Ok(_) => {
                copy_over(&mut self.leader, buf);
                let lent = match self.payload_buf.take() {
                    Some(lent) => lent,
                    None => unreached(),
                };
                self.phase = Phase::AwaitPayload;
                Step {
                    report: None,
                    next: Action::ReadPayload { buf: lent, timeout: self.params.timeout },
                }
            },
        }
    }

    /// Takes the payload buffer back with the outcome of the payload read:
    /// the number of bytes that arrived in all transfers, or the first
    /// failure.
    ///
    /// Where the read failed, the iteration ends: the error is reported and
    /// the payload buffer is kept. Else the trailer is read next.
    pub fn on_payload(&mut self, buf: Vec<u8>, outcome: StreamResult<usize>) -> (step: Step)
        requires
            old(self).wf(),
            old(self).spec_phase() == Phase::AwaitPayload,
            buf@.len() == old(self).maximum_payload_size(),
            outcome matches Ok(read_len) ==> read_len <= buf@.len(),
        ensures
            final(self).wf(),
            final(self).inner() == old(self).inner(),
            final(self).spec_params() == old(self).spec_params(),
            reads_left(final(self).spec_phase()) < reads_left(old(self).spec_phase()),
            step.next != Action::Complete,
            final(self).leader() == old(self).leader(),
            final(self).payload_buf() == Some(buf),
            match outcome {
                Err(e) => {
                    &&& final(self).spec_phase() == Phase::Boundary
                    &&& step.next == Action::PollCancellation
                    &&& report_view(step.report) == Some(Err::<Payload, StreamErrorView>(e@))
                },
                Ok(read_len) => {
                    &&& final(self).spec_phase() == Phase::AwaitTrailer
                    &&& final(self).read_payload_size() == read_len
                    &&& step.report is None
                    &&& step.next == Action::ReceiveTrailer(old(self).trailer_request())
                },
            },
    {
        self.payload_buf = Some(buf);
        match outcome {
            Err(e) => {
                self.phase = Phase::Boundary;
                Step { report: Some(Err(e)), next: Action::PollCancellation }
            },
            Ok(read_len) => {
                self.read_payload_size = read_len;
                self.phase = Phase::AwaitTrailer;
                let request = match read_trailer(
                    &self.inner,
                    &self.params,
                    self.params.trailer_size,
                ) {
                    Ok(request) => request,
                    Err(_) => unreached(),
                };
                Step { report: None, next: Action::ReceiveTrailer(request) }
            },
        }
    }

    /// Takes the outcome of the trailer read and the buffer of the trailer,
    /// and ends the iteration.
    ///
    /// Where the read failed or the bytes are no trailer, the error is
    /// reported and the payload buffer is kept. Else the payload is built and
    /// reported, or the error that rejects the block; the payload buffer goes
    /// with either.
    pub fn on_trailer(&mut self, outcome: TransportResult<usize>, buf: &[u8]) -> (step: Step)
        requires
            old(self).wf(),
            old(self).spec_phase() == Phase::AwaitTrailer,
        ensures
            final(self).wf(),
            final(self).inner() == old(self).inner(),
            final(self).spec_params() == old(self).spec_params(),
            final(self).spec_phase() == Phase::Boundary,
            reads_left(final(self).spec_phase()) < reads_left(old(self).spec_phase()),
            step.next == Action::PollCancellation,
            match trailer_outcome(outcome, buf@) {
                Some(e) => {
                    &&& final(self).payload_buf() == old(self).payload_buf()
                    &&& report_view(step.report) == Some(Err::<Payload, StreamErrorView>(e))
                },
                None => {
                    &&& final(self).payload_buf() is None
                    &&& report_view(step.report) == Some(old(self).block(buf@).outcome())
                },
            },
            trailer_outcome(outcome, buf@) is None ==> (old(self).block(buf@).generic_defect()
                matches Some(message) ==> report_view(step.report) == Some(
                Err::<Payload, StreamErrorView>(StreamErrorView::InvalidPayload(message)),
            )),
            trailer_outcome(outcome, buf@) is None && old(self).block(buf@).defect() is None
                ==> step.report == Some(
                Ok::<Payload, StreamError>(old(self).block(buf@).built()),
            ),
            step.report matches Some(Ok(payload)) ==> {
                &&& payload.payload@.len() == old(self).maximum_payload_size()
                &&& payload.valid_payload_size <= old(self).read_payload_size()
                &&& payload.payload_type == PayloadType::Image ==> (payload.image_info matches Some(
                    info,
                ) && info.image_size == payload.valid_payload_size)
            },
    {
        self.phase = Phase::Boundary;
        let trailer = match trailer_received(outcome, buf) {
            Ok(trailer) => trailer,
            Err(e) => {
                return Step { report: Some(Err(e)), next: Action::PollCancellation };
            },
        };
        let payload_buf = match self.payload_buf.take() {
            Some(payload_buf) => payload_buf,
            None => unreached(),
        };
        let leader = match Leader::parse(self.leader.as_slice()) {
            Ok(leader) => leader,
            Err(_) => unreached(),
        };
        let builder = PayloadBuilder {
            leader,
            payload_buf,
            read_payload_size: self.read_payload_size,
            trailer,
        };
        assert(builder@ == old(self).block(buf@));
        Step { report: Some(builder.build()), next: Action::PollCancellation }
    }
}

/// A leader read that times out is no fatal error: the loop reports nothing
/// for it, whatever the buffer of the leader holds, and looks at the
/// cancellation signal next.
pub proof fn lemma_timeout_is_not_reported(buf: Seq<u8>)
    ensures
        leader_outcome(Err(TransportError::LibUsb(LibUsbError::Timeout)), buf) == Some(
            StreamErrorView::Timeout,
        ),
        !is_fatal(StreamErrorView::Timeout),
        stream_error_of(TransportError::LibUsb(LibUsbError::Timeout)) == StreamError::Timeout,
{
}

} // verus!
