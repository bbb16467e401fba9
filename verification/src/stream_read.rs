//! Reading one block of the stream: what each of the three reads asks of the
//! receive channel, and what its outcome means.
//!
//! A block arrives as a leader, a payload in several transfers and a trailer.
//! Leader and trailer take one transfer each. The payload takes
//! `payload_count` transfers of `payload_size` bytes, then one of
//! `payload_final1_size` bytes and one of `payload_final2_size` bytes where
//! these are not 0; the transfers fill one buffer without gaps.

use crate::channel::ReceiveChannel;
use crate::error::{result_view, stream_error_of, StreamError, StreamErrorView, StreamResult};
use crate::protocol::{
    generic_leader_of, generic_trailer_of, leader_defect, trailer_defect, Leader, Trailer,
    GENERIC_LEADER_LEN, GENERIC_TRAILER_LEN,
};
use crate::stream_params::StreamParams;
use crate::transport::{TransportResult, UsbRequest};
use vstd::prelude::*;

verus! {

/// One transfer of a payload read: `len` bytes into the buffer at `offset`.
#[derive(Clone, Copy, Debug, PartialEq, Eq, Structural)]
pub struct Transfer {
    pub offset: usize,
    pub len: usize,
}

/// Start of the message for a trailer that could not be decoded.
pub const MSG_INVALID_TRAILER: &'static str = "invalid trailer: ";

/// What receiving `len` bytes into a buffer of `buf_len` bytes asks of the
/// channel: nothing for no bytes, else one transfer, which needs a buffer
/// that holds it.
pub open spec fn recv_plan(
    inner: ReceiveChannel,
    params: StreamParams,
    buf_len: usize,
    len: usize,
) -> Result<Option<UsbRequest>, StreamErrorView> {
    if len == 0 {
        Ok(None)
    } else if buf_len < len {
        Err(StreamErrorView::BufferTooSmall)
    } else {
        Ok(
            Some(
                UsbRequest::ReadBulk {
                    endpoint: inner.iface_info.bulk_in_ep,
                    len,
                    timeout: params.timeout,
                },
            ),
        )
    }
}

/// The transfer that receives `len` bytes into the start of a buffer of
/// `buf_len` bytes, if one is needed.
pub fn recv(inner: &ReceiveChannel, params: &StreamParams, buf_len: usize, len: usize) -> (res:
    StreamResult<Option<UsbRequest>>)
    ensures
        result_view(res) == recv_plan(*inner, *params, buf_len, len),
{
    if len == 0 {
        return Ok(None);
    }
    if buf_len < len {
        return Err(StreamError::BufferTooSmall);
    }
    Ok(Some(inner.recv(len, params.timeout)))
}

/// What a read of `received` bytes, or its failure, means for the stream.
pub fn received(outcome: TransportResult<usize>) -> (res: StreamResult<usize>)
    ensures
        res == match outcome {
            Ok(len) => Ok::<usize, StreamError>(len),
            Err(e) => Err::<usize, StreamError>(stream_error_of(e)),
        },
{
    match outcome {
        Ok(len) => Ok(len),
        Err(e) => Err(StreamError::from(e)),
    }
}

/// The transfer that reads a leader into a buffer of `buf_len` bytes.
pub fn read_leader(inner: &ReceiveChannel, params: &StreamParams, buf_len: usize) -> (res:
    StreamResult<Option<UsbRequest>>)
    ensures
        result_view(res) == recv_plan(*inner, *params, buf_len, params.leader_size),
{
    recv(inner, params, buf_len, params.leader_size)
}

/// What the outcome of the leader read and the bytes of the buffer mean: the
/// error of the transfer, a leader, or the reason why the bytes are none.
pub open spec fn leader_outcome(outcome: TransportResult<usize>, buf: Seq<u8>) -> Option<
    StreamErrorView,
> {
    match outcome {
        Err(e) => Some(stream_error_of(e)@),
        Ok(_) => match leader_defect(buf) {
            Some(defect) => Some(StreamErrorView::InvalidPayload(defect.spec_describe())),
            None => None,
        },
    }
}

/// Takes the outcome of the leader read and decodes the leader in `buf`.
pub fn leader_received<'a>(outcome: TransportResult<usize>, buf: &'a [u8]) -> (res: StreamResult<
    Leader<'a>,
>)
    ensures
        match res {
            Ok(leader) => {
                &&& leader_outcome(outcome, buf@) is None
                &&& leader.generic_leader == generic_leader_of(buf@)
                &&& leader.raw_specific_leader@ == buf@.subrange(
                    GENERIC_LEADER_LEN as int,
                    buf@.len() as int,
                )
            },
            Err(e) => leader_outcome(outcome, buf@) == Some(e@),
        },
{
    match outcome {
        Err(e) => { return Err(StreamError::from(e)); },
        Ok(_) => {},
    }
    match Leader::parse(buf) {
        Ok(leader) => Ok(leader),
        Err(e) => Err(StreamError::InvalidPayload(e.describe())),
    }
}

/// The transfer that reads a trailer into a buffer of `buf_len` bytes.
pub fn read_trailer(inner: &ReceiveChannel, params: &StreamParams, buf_len: usize) -> (res:
    StreamResult<Option<UsbRequest>>)
    ensures
        result_view(res) == recv_plan(*inner, *params, buf_len, params.trailer_size),
{
    recv(inner, params, buf_len, params.trailer_size)
}

/// What the outcome of the trailer read and the bytes of the buffer mean: the
/// error of the transfer, a trailer, or the reason why the bytes are none.
pub open spec fn trailer_outcome(outcome: TransportResult<usize>, buf: Seq<u8>) -> Option<
    StreamErrorView,
> {
    match outcome {
        Err(e) => Some(stream_error_of(e)@),
        Ok(_) => match trailer_defect(buf) {
            Some(defect) => Some(
                StreamErrorView::InvalidPayload(MSG_INVALID_TRAILER@ + defect.spec_describe()),
            ),
            None => None,
        },
    }
}

/// Takes the outcome of the trailer read and decodes the trailer in `buf`.
pub fn trailer_received<'a>(outcome: TransportResult<usize>, buf: &'a [u8]) -> (res:
    StreamResult<Trailer<'a>>)
    ensures
        match res {
            Ok(trailer) => {
                &&& trailer_outcome(outcome, buf@) is None
                &&& trailer.generic_trailer == generic_trailer_of(buf@)
                &&& trailer.raw_specific_trailer@ == buf@.subrange(
                    GENERIC_TRAILER_LEN as int,
                    buf@.len() as int,
                )
            },
            Err(e) => trailer_outcome(outcome, buf@) == Some(e@),
        },
{
    match outcome {
        Err(e) => { return Err(StreamError::from(e)); },
        Ok(_) => {},
    }
    match Trailer::parse(buf) {
        Ok(trailer) => Ok(trailer),
        Err(e) => {
            let defect = e.describe();
            let message = String::from_str(MSG_INVALID_TRAILER).concat(defect.as_str());
            Err(StreamError::InvalidPayload(message))
        },
    }
}

/// The transfers of `payload_size` bytes each that open a payload read.
pub open spec fn main_transfers(params: StreamParams) -> Seq<Transfer> {
    Seq::new(
        params.payload_count as nat,
        |i: int| Transfer { offset: (i * params.payload_size) as usize, len: params.payload_size },
    )
}

/// The transfers that a payload read submits, in order.
pub open spec fn transfer_plan(params: StreamParams) -> Seq<Transfer> {
    let main = main_transfers(params);
    let main_len = params.payload_size * params.payload_count;
    let with_final1 = if params.payload_final1_size != 0 {
        main.push(Transfer { offset: main_len as usize, len: params.payload_final1_size })
    } else {
        main
    };
    if params.payload_final2_size != 0 {
        with_final1.push(
            Transfer {
                offset: (main_len + params.payload_final1_size) as usize,
                len: params.payload_final2_size,
            },
        )
    } else {
        with_final1
    }
}

/// The transfers that read a payload into a buffer of `buf_len` bytes. A
/// buffer that does not hold the maximum payload size is too small.
pub fn read_payload(params: &StreamParams, buf_len: usize) -> (res: StreamResult<Vec<Transfer>>)
    ensures
        buf_len < params.spec_maximum_payload_size() ==> (res matches Err(
            StreamError::BufferTooSmall,
        )),
        buf_len >= params.spec_maximum_payload_size() ==> (res matches Ok(plan) && plan@
            == transfer_plan(*params) && planned_len(plan@) == params.spec_maximum_payload_size()),
{
    proof {
        if params.is_addressable() {
            lemma_transfer_plan(*params);
        }
    }
    let maximum_payload_size = match params.checked_maximum_payload_size() {
        None => { return Err(StreamError::BufferTooSmall); },
        Some(size) => size,
    };
    if buf_len < maximum_payload_size {
        return Err(StreamError::BufferTooSmall);
    }
    let payload_size = params.payload_size;
    let mut plan: Vec<Transfer> = Vec::new();
    let mut cursor: usize = 0;
    let mut submitted: usize = 0;
    assert(params.payload_size * params.payload_count >= 0) by (nonlinear_arith);
    while submitted < params.payload_count
        invariant
            submitted <= params.payload_count,
            payload_size == params.payload_size,
            params.payload_size * params.payload_count <= usize::MAX,
            cursor == submitted * params.payload_size,
            plan@ == main_transfers(*params).subrange(0, submitted as int),
        decreases params.payload_count - submitted,
    {
        assert((submitted + 1) * params.payload_size <= params.payload_size
            * params.payload_count) by (nonlinear_arith)
            requires
                submitted < params.payload_count,
        ;
        assert((submitted + 1) * params.payload_size == submitted * params.payload_size
            + params.payload_size) by (nonlinear_arith);
        plan.push(Transfer { offset: cursor, len: payload_size });
        cursor = cursor + payload_size;
        submitted = submitted + 1;
        assert(plan@ =~= main_transfers(*params).subrange(0, submitted as int));
    }
    assert(plan@ =~= main_transfers(*params));
    assert(cursor == params.payload_size * params.payload_count) by (nonlinear_arith)
        requires
            cursor == submitted * params.payload_size,
            submitted == params.payload_count,
    ;
    if params.payload_final1_size != 0 {
        plan.push(Transfer { offset: cursor, len: params.payload_final1_size });
        cursor = cursor + params.payload_final1_size;
    }
    if params.payload_final2_size != 0 {
        plan.push(Transfer { offset: cursor, len: params.payload_final2_size });
    }
    Ok(plan)
}

/// The number of bytes that the transfers `plan` ask for.
pub open spec fn planned_len(plan: Seq<Transfer>) -> int
    decreases plan.len(),
{
    if plan.len() == 0 {
        0
    } else {
        planned_len(plan.drop_last()) + plan.last().len
    }
}

/// The first transfers of a plan ask for no more bytes than all of them.
pub proof fn lemma_planned_len_grows(plan: Seq<Transfer>, count: int)
    requires
        0 <= count <= plan.len(),
    ensures
        0 <= planned_len(plan.subrange(0, count)) <= planned_len(plan),
    decreases plan.len(),
{
    if count == plan.len() {
        assert(plan.subrange(0, count) =~= plan);
        if plan.len() > 0 {
            lemma_planned_len_grows(plan.drop_last(), count - 1);
        }
    } else {
        lemma_planned_len_grows(plan.drop_last(), count);
        assert(plan.drop_last().subrange(0, count) =~= plan.subrange(0, count));
    }
}

/// The state of one payload read over a pool of transfers in flight: which
/// transfers of the plan were submitted, which of them have completed, and
/// how many bytes have arrived.
///
/// The transfers are submitted in the order of the plan and complete in that
/// order. A read submits all of them, then waits for one after the other
/// until none is in flight; the first failure ends it.
#[derive(Clone, Copy, Debug)]
pub struct PayloadRead<'a> {
    transfers: &'a [Transfer],
    submitted: usize,
    polled: usize,
    read_len: usize,
}

impl<'a> PayloadRead<'a> {
    /// The transfers of the read.
    pub closed spec fn plan(&self) -> Seq<Transfer> {
        self.transfers@
    }

    /// Number of transfers that were submitted.
    pub closed spec fn submitted(&self) -> int {
        self.submitted as int
    }

    /// Number of transfers that have completed.
    pub closed spec fn polled(&self) -> int {
        self.polled as int
    }

    /// Number of bytes that have arrived.
    pub closed spec fn spec_read_len(&self) -> int {
        self.read_len as int
    }

    /// No more transfers have completed than were submitted, no more were
    /// submitted than the plan holds, and no more bytes have arrived than the
    /// completed transfers asked for.
    pub open spec fn wf(&self) -> bool {
        &&& 0 <= self.polled() <= self.submitted() <= self.plan().len()
        &&& 0 <= self.spec_read_len() <= planned_len(self.plan().subrange(0, self.polled()))
        &&& planned_len(self.plan()) <= usize::MAX
    }

    /// A read of the transfers given, with none of them submitted.
    pub fn new(transfers: &'a [Transfer]) -> (read: Self)
        requires
            planned_len(transfers@) <= usize::MAX,
        ensures
            read.wf(),
            read.plan() == transfers@,
            read.submitted() == 0,
            read.polled() == 0,
            read.spec_read_len() == 0,
    {
        proof {
            lemma_planned_len_grows(transfers@, 0);
        }
        Self { transfers, submitted: 0, polled: 0, read_len: 0 }
    }

    /// The transfer to submit next, or `None` where all were submitted.
    pub fn next_transfer(&self) -> (next: Option<Transfer>)
        requires
            self.wf(),
        ensures
            next == (if self.submitted() < self.plan().len() {
                Some(self.plan()[self.submitted()])
            } else {
                None
            }),
    {
        if self.submitted < self.transfers.len() {
            Some(self.transfers[self.submitted])
        } else {
            None
        }
    }

    /// Takes the outcome of submitting the next transfer: it is in flight
    /// where that went through, and the read has failed where it did not.
    pub fn submit(&mut self, outcome: TransportResult<()>) -> (res: StreamResult<()>)
        requires
            old(self).wf(),
            old(self).submitted() < old(self).plan().len(),
        ensures
            final(self).wf(),
            final(self).plan() == old(self).plan(),
            final(self).polled() == old(self).polled(),
            final(self).spec_read_len() == old(self).spec_read_len(),
            match outcome {
                Ok(()) => {
                    &&& res == Ok::<(), StreamError>(())
                    &&& final(self).submitted() == old(self).submitted() + 1
                },
                Err(e) => {
                    &&& res == Err::<(), StreamError>(stream_error_of(e))
                    &&& final(self).submitted() == old(self).submitted()
                },
            },
    {
        match outcome {
            Ok(()) => {
                assert(self.transfers@.len() == self.transfers.len());
                self.submitted = self.submitted + 1;
                Ok(())
            },
            Err(e) => Err(StreamError::from(e)),
        }
    }

    /// Whether no transfer is in flight.
    pub fn is_empty(&self) -> (empty: bool)
        ensures
            empty == (self.polled() == self.submitted()),
    {
        self.polled == self.submitted
    }

    /// The transfer that completes next, or `None` where none is in flight.
    pub fn in_flight(&self) -> (next: Option<Transfer>)
        requires
            self.wf(),
        ensures
            next == (if self.polled() < self.submitted() {
                Some(self.plan()[self.polled()])
            } else {
                None
            }),
    {
        if self.polled < self.submitted {
            Some(self.transfers[self.polled])
        } else {
            None
        }
    }

    /// Takes the outcome of waiting for the transfer that completes next: the
    /// bytes that arrived are added up, and the read has failed where the
    /// transfer did. A transfer brings no more bytes than it asked for.
    pub fn poll(&mut self, outcome: TransportResult<usize>) -> (res: StreamResult<()>)
        requires
            old(self).wf(),
            old(self).polled() < old(self).submitted(),
            outcome matches Ok(len) ==> len <= old(self).plan()[old(self).polled()].len,
        ensures
            final(self).wf(),
            final(self).plan() == old(self).plan(),
            final(self).submitted() == old(self).submitted(),
            match outcome {
                Ok(len) => {
                    &&& res == Ok::<(), StreamError>(())
                    &&& final(self).polled() == old(self).polled() + 1
                    &&& final(self).spec_read_len() == old(self).spec_read_len() + len
                },
                Err(e) => {
                    &&& res == Err::<(), StreamError>(stream_error_of(e))
                    &&& final(self).polled() == old(self).polled()
                    &&& final(self).spec_read_len() == old(self).spec_read_len()
                },
            },
    {
        match outcome {
            Ok(len) => {
                proof {
                    let done = self.plan().subrange(0, self.polled() + 1);
                    assert(done.drop_last() =~= self.plan().subrange(0, self.polled()));
                    lemma_planned_len_grows(self.plan(), self.polled() + 1);
                }
                self.read_len = self.read_len + len;
                self.polled = self.polled + 1;
                Ok(())
            },
            Err(e) => Err(StreamError::from(e)),
        }
    }

    /// Number of bytes that have arrived: no more than the plan asks for.
    pub fn read_len(&self) -> (len: usize)
        requires
            self.wf(),
        ensures
            len == self.spec_read_len(),
            len <= planned_len(self.plan()),
    {
        proof {
            lemma_planned_len_grows(self.plan(), self.polled());
        }
        self.read_len
    }
}

/// The main transfers lie one behind the other from offset 0.
pub proof fn lemma_main_transfers(params: StreamParams, count: nat)
    requires
        count <= params.payload_count,
    ensures
        planned_len(main_transfers(params).subrange(0, count as int)) == count
            * params.payload_size,
    decreases count,
{
    let main = main_transfers(params);
    if count > 0 {
        lemma_main_transfers(params, (count - 1) as nat);
        let part = main.subrange(0, count as int);
        assert(part.drop_last() =~= main.subrange(0, count - 1));
        assert(count * params.payload_size == (count - 1) * params.payload_size
            + params.payload_size) by (nonlinear_arith);
    } else {
        assert(0 * params.payload_size == 0) by (nonlinear_arith);
    }
}

/// The transfers of a payload read ask for the maximum payload size in all,
/// there are `payload_count` of them and one more for each final size that is
/// not 0, and each starts where the one before it ends.
pub proof fn lemma_transfer_plan(params: StreamParams)
    requires
        params.is_addressable(),
    ensures
        planned_len(transfer_plan(params)) == params.spec_maximum_payload_size(),
        transfer_plan(params).len() == params.payload_count + (if params.payload_final1_size
            != 0 {
            1int
        } else {
            0int
        }) + (if params.payload_final2_size != 0 {
            1int
        } else {
            0int
        }),
        forall|i: int|
            0 <= i < transfer_plan(params).len() ==> (#[trigger] transfer_plan(params)[i]).offset
                == planned_len(transfer_plan(params).subrange(0, i)),
{
    let main = main_transfers(params);
    let plan = transfer_plan(params);
    let main_len = params.payload_size * params.payload_count;
    assert(main_len >= 0) by (nonlinear_arith)
        requires
            main_len == params.payload_size * params.payload_count,
    ;
    lemma_main_transfers(params, params.payload_count as nat);
    assert(main.subrange(0, params.payload_count as int) =~= main);
    assert(params.payload_count * params.payload_size == main_len) by (nonlinear_arith)
        requires
            main_len == params.payload_size * params.payload_count,
    ;
    let with_final1 = if params.payload_final1_size != 0 {
        main.push(Transfer { offset: main_len as usize, len: params.payload_final1_size })
    } else {
        main
    };
    if params.payload_final1_size != 0 {
        assert(with_final1.drop_last() =~= main);
    }
    assert(planned_len(with_final1) == main_len + params.payload_final1_size);
    if params.payload_final2_size != 0 {
        assert(plan.drop_last() =~= with_final1);
    }
    assert forall|i: int| 0 <= i < plan.len() implies (#[trigger] plan[i]).offset == planned_len(
        plan.subrange(0, i),
    ) by {
        if i < params.payload_count {
            lemma_main_transfers(params, i as nat);
            assert(plan.subrange(0, i) =~= main.subrange(0, i));
            assert(i * params.payload_size <= main_len) by (nonlinear_arith)
                requires
                    0 <= i < params.payload_count,
                    main_len == params.payload_size * params.payload_count,
            ;
            assert(i * params.payload_size >= 0) by (nonlinear_arith)
                requires
                    0 <= i,
            ;
        } else if i == params.payload_count {
            assert(plan.subrange(0, i) =~= main);
        } else {
            assert(plan.subrange(0, i) =~= with_final1);
        }
    }
}

} // verus!
