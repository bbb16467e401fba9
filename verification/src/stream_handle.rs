//! The handle of a stream: it owns the life cycle of the streaming loop and
//! offers the three reads of a block for use by hand while no loop runs.
//!
//! A handle is closed, open and idle, or open and streaming. It holds the two
//! ends of the signals that it shares with the loop: the sender of the
//! cancellation signal and the receiver of the completion signal. Both are
//! there while the loop runs and neither is there while it does not.

use crate::channel::{close_plan, open_plan, ReceiveChannel};
use crate::error::{
    control_error_of, result_view, stream_error_of, ControlError, ControlResult, StreamError,
    StreamErrorView, StreamIoCause, StreamResult,
};
use crate::register_map::{untouched, DeviceControl};
use crate::stream_params::StreamParams;
use crate::stream_read::{
    planned_len, read_leader, read_payload, read_trailer, recv_plan, transfer_plan, Transfer,
};
use crate::streaming_loop::{Phase, StreamingLoop};
use crate::transport::{TransportResult, UsbRequest};
use vstd::prelude::*;

verus! {

/// Message of the error for parameters whose maximum payload size is no
/// machine word.
pub const MSG_NOT_ADDRESSABLE: &'static str = "maximum payload size exceeds the address space";

/// How stopping the streaming loop went.
#[derive(Clone, Debug, PartialEq, Eq)]
pub enum StopOutcome {
    /// The cancellation signal could not be sent: the loop had ended already.
    WorkerGone,
    /// The loop signalled completion.
    Completed,
    /// The loop went away without signalling completion.
    CompletionLost(String),
}

/// What closing the handle needs next.
#[derive(Debug)]
pub enum CloseStep<Tx, Rx> {
    /// The loop ran: send the cancellation signal, wait for completion, and
    /// call `close` again where `stopped` gives `Ok`.
    StopLoop { cancellation_tx: Tx, completion_rx: Rx },
    /// Carry out the plan on the bus and call `finish_close` with the outcome.
    Release(Vec<UsbRequest>),
}

/// This type is used to receive stream packets from the device.
pub struct StreamHandle<Tx, Rx> {
    /// Inner channel to receive payload data.
    inner: ReceiveChannel,
    /// Parameters for streaming.
    params: StreamParams,
    cancellation_tx: Option<Tx>,
    completion_rx: Option<Rx>,
}

impl<Tx, Rx> StreamHandle<Tx, Rx> {
    /// The channel that the handle reads.
    pub closed spec fn channel(&self) -> ReceiveChannel {
        self.inner
    }

    /// The parameters of the handle.
    pub closed spec fn spec_params(&self) -> StreamParams {
        self.params
    }

    /// The sender of the cancellation signal, while the loop runs.
    pub closed spec fn cancellation_tx(&self) -> Option<Tx> {
        self.cancellation_tx
    }

    /// The receiver of the completion signal, while the loop runs.
    pub closed spec fn completion_rx(&self) -> Option<Rx> {
        self.completion_rx
    }

    /// The sender of the cancellation signal is there if and only if the
    /// receiver of the completion signal is.
    pub open spec fn wf(&self) -> bool {
        self.cancellation_tx() is Some <==> self.completion_rx() is Some
    }

    /// Whether the streaming loop runs.
    pub open spec fn is_running(&self) -> bool {
        self.completion_rx() is Some
    }

    /// Makes the handle of the stream channel of a device, where the device
    /// has one. `stream_channel` is what asking the device for its stream
    /// channel gave.
    pub fn new(stream_channel: TransportResult<Option<ReceiveChannel>>) -> (res: ControlResult<
        Option<Self>,
    >)
        ensures
            match stream_channel {
                Err(e) => res matches Err(err) && err == control_error_of(e),
                Ok(None) => res matches Ok(None),
                Ok(Some(inner)) => res matches Ok(Some(handle)) && handle.wf()
                    && !handle.is_running() && handle.channel() == inner
                    && handle.spec_params() == StreamParams::spec_default(),
            },
    {
        match stream_channel {
            Err(e) => Err(ControlError::from(e)),
            Ok(None) => Ok(None),
            Ok(Some(inner)) => Ok(
                Some(
                    Self {
                        inner,
                        params: StreamParams::default(),
                        cancellation_tx: None,
                        completion_rx: None,
                    },
                ),
            ),
        }
    }

    /// Inner channel to receive payload data.
    pub fn inner(&self) -> (inner: &ReceiveChannel)
        ensures
            *inner == self.channel(),
    {
        &self.inner
    }

    /// Return params.
    #[must_use]
    pub fn params(&self) -> (params: &StreamParams)
        ensures
            *params == self.spec_params(),
    {
        &self.params
    }

    /// Return mutable params. A loop that runs keeps the parameters that it
    /// was started with.
    pub fn params_mut(&mut self) -> (params: &mut StreamParams)
        ensures
            *params == old(self).spec_params(),
            final(self).spec_params() == *final(params),
            final(self).channel() == old(self).channel(),
            final(self).cancellation_tx() == old(self).cancellation_tx(),
            final(self).completion_rx() == old(self).completion_rx(),
    {
        &mut self.params
    }

    /// Whether the streaming loop runs.
    pub fn is_loop_running(&self) -> (running: bool)
        ensures
            running == self.is_running(),
    {
        self.completion_rx.is_some()
    }

    /// What reading a leader into a buffer of `buf_len` bytes asks of the
    /// channel. While the loop runs the read is refused and nothing is asked.
    ///
    /// Buffer size must be equal or larger than [`StreamParams::leader_size`].
    pub fn read_leader(&self, buf_len: usize) -> (res: StreamResult<Option<UsbRequest>>)
        ensures
            self.is_running() ==> res matches Err(StreamError::InStreaming),
            !self.is_running() ==> result_view(res) == recv_plan(
                self.channel(),
                self.spec_params(),
                buf_len,
                self.spec_params().leader_size,
            ),
    {
        if self.is_loop_running() {
            Err(StreamError::InStreaming)
        } else {
            read_leader(&self.inner, &self.params, buf_len)
        }
    }

    /// What reading a payload into a buffer of `buf_len` bytes asks of the
    /// channel. While the loop runs the read is refused and nothing is asked.
    pub fn read_payload(&self, buf_len: usize) -> (res: StreamResult<Vec<Transfer>>)
        ensures
            self.is_running() ==> res matches Err(StreamError::InStreaming),
            !self.is_running() && buf_len < self.spec_params().spec_maximum_payload_size() ==> (
            res matches Err(StreamError::BufferTooSmall)),
            !self.is_running() && buf_len >= self.spec_params().spec_maximum_payload_size() ==> (
            res matches Ok(plan) && plan@ == transfer_plan(self.spec_params()) && planned_len(
                plan@,
            ) == self.spec_params().spec_maximum_payload_size()),
    {
        if self.is_loop_running() {
            Err(StreamError::InStreaming)
        } else {
            read_payload(&self.params, buf_len)
        }
    }

    /// What reading a trailer into a buffer of `buf_len` bytes asks of the
    /// channel. While the loop runs the read is refused and nothing is asked.
    ///
    /// Buffer size must be equal of larger than [`StreamParams::trailer_size`].
    pub fn read_trailer(&self, buf_len: usize) -> (res: StreamResult<Option<UsbRequest>>)
        ensures
            self.is_running() ==> res matches Err(StreamError::InStreaming),
            !self.is_running() ==> result_view(res) == recv_plan(
                self.channel(),
                self.spec_params(),
                buf_len,
                self.spec_params().trailer_size,
            ),
    {
        if self.is_loop_running() {
            Err(StreamError::InStreaming)
        } else {
            read_trailer(&self.inner, &self.params, buf_len)
        }
    }

    /// What opening the handle asks of the bus.
    pub fn open(&self) -> (plan: Vec<UsbRequest>)
        ensures
            plan@ == open_plan(self.channel().is_opened, self.channel().iface_info.iface_number),
    {
        self.inner.open()
    }

    /// Takes the outcome of the plan that `open` gave.
    pub fn finish_open(&mut self, outcome: TransportResult<()>) -> (res: StreamResult<()>)
        ensures
            res == match outcome {
                Ok(()) => Ok::<(), StreamError>(()),
                Err(e) => Err::<(), StreamError>(stream_error_of(e)),
            },
            final(self).channel().iface_info == old(self).channel().iface_info,
            final(self).channel().is_opened == (old(self).channel().is_opened || outcome is Ok),
            final(self).spec_params() == old(self).spec_params(),
            final(self).cancellation_tx() == old(self).cancellation_tx(),
            final(self).completion_rx() == old(self).completion_rx(),
    {
        match self.inner.finish_open(outcome) {
            Ok(()) => Ok(()),
            Err(e) => Err(StreamError::from(e)),
        }
    }

    /// What closing the handle needs next: to stop the loop where it runs,
    /// else to release the interface. Either way no loop runs after it.
    pub fn close(&mut self) -> (step: CloseStep<Tx, Rx>)
        requires
            old(self).wf(),
        ensures
            final(self).wf(),
            !final(self).is_running(),
            final(self).channel() == old(self).channel(),
            final(self).spec_params() == old(self).spec_params(),
            old(self).is_running() ==> (step matches CloseStep::StopLoop {
                cancellation_tx,
                completion_rx,
            } && Some(cancellation_tx) == old(self).cancellation_tx() && Some(completion_rx)
                == old(self).completion_rx()),
            !old(self).is_running() ==> (step matches CloseStep::Release(plan) && plan@
                == close_plan(
                old(self).channel().is_opened,
                old(self).channel().iface_info.iface_number,
            )),
    {
        match self.stop_streaming_loop() {
            Some((cancellation_tx, completion_rx)) => CloseStep::StopLoop {
                cancellation_tx,
                completion_rx,
            },
            None => CloseStep::Release(self.inner.close()),
        }
    }

    /// Takes the outcome of the plan that `close` gave.
    pub fn finish_close(&mut self, outcome: TransportResult<()>) -> (res: StreamResult<()>)
        ensures
            res == match outcome {
                Ok(()) => Ok::<(), StreamError>(()),
                Err(e) => Err::<(), StreamError>(stream_error_of(e)),
            },
            final(self).channel().iface_info == old(self).channel().iface_info,
            final(self).channel().is_opened == (old(self).channel().is_opened && outcome is Err),
            final(self).spec_params() == old(self).spec_params(),
            final(self).cancellation_tx() == old(self).cancellation_tx(),
            final(self).completion_rx() == old(self).completion_rx(),
    {
        match self.inner.finish_close(outcome) {
            Ok(()) => Ok(()),
            Err(e) => Err(StreamError::from(e)),
        }
    }

    /// What starting the loop gives for parameters that were discovered or
    /// could not be, on a handle with the running state given: the error, or
    /// `None` where the loop starts. A handle whose loop runs refuses the
    /// start, whatever was discovered.
    pub open spec fn start_defect(
        discovered: ControlResult<StreamParams>,
        running: bool,
    ) -> Option<StreamErrorView> {
        if running {
            Some(StreamErrorView::InStreaming)
        } else {
            match discovered {
                Err(e) => Some(StreamErrorView::Io(StreamIoCause::Setup(e))),
                Ok(params) => if !params.is_addressable() {
                    Some(
                        StreamErrorView::Io(
                            StreamIoCause::Setup(
                                ControlError::InvalidDevice(MSG_NOT_ADDRESSABLE),
                            ),
                        ),
                    )
                } else {
                    None
                },
            }
        }
    }

    /// The parameters of a handle after a start: those that were discovered,
    /// unless the loop runs or none were discovered, which leaves the
    /// parameters as they are.
    pub open spec fn params_after_start(
        &self,
        discovered: ControlResult<StreamParams>,
    ) -> StreamParams {
        match discovered {
            Ok(params) if !self.is_running() => params,
            _ => self.spec_params(),
        }
    }

    /// Whether starting the loop on this handle, with what the discovery of
    /// the parameters gave and with the two ends of the signals, may give
    /// `res` and leave the handle as `after`.
    ///
    /// A handle whose loop runs refuses the start and stays as it is. Else
    /// parameters that were discovered are those of the handle afterwards.
    /// Where the start fails, `res` is the error that `start_defect` names
    /// and the signals of the handle are as they were. Else `res` is a loop
    /// at its first iteration boundary, with the channel of the handle and
    /// the parameters that were discovered, and the handle holds the two
    /// ends that were handed in.
    pub open spec fn starts(
        &self,
        discovered: ControlResult<StreamParams>,
        cancellation_tx: Tx,
        completion_rx: Rx,
        after: &Self,
        res: StreamResult<StreamingLoop>,
    ) -> bool {
        &&& after.wf()
        &&& after.channel() == self.channel()
        &&& after.spec_params() == self.params_after_start(discovered)
        &&& match Self::start_defect(discovered, self.is_running()) {
            Some(e) => {
                &&& res matches Err(err)
                &&& err@ == e
                &&& after.cancellation_tx() == self.cancellation_tx()
                &&& after.completion_rx() == self.completion_rx()
            },
            None => {
                &&& res matches Ok(worker)
                &&& worker.wf()
                &&& worker.spec_phase() == Phase::Boundary
                &&& worker.payload_buf() is None
                &&& worker.inner() == self.channel()
                &&& worker.spec_params() == discovered->Ok_0
                &&& after.is_running()
                &&& after.cancellation_tx() == Some(cancellation_tx)
                &&& after.completion_rx() == Some(completion_rx)
            },
        }
    }

    /// Starts the streaming loop with the parameters that were discovered,
    /// and keeps the two ends of its signals.
    ///
    /// The start fails with `InStreaming` where a loop runs, and changes
    /// nothing. Parameters that could not be discovered fail it with `Io` and
    /// change nothing either. Parameters that were discovered replace those
    /// of the handle; the start then fails with `Io` where the maximum
    /// payload size is no machine word. Else the loop is handed out at its
    /// first iteration boundary, to be driven on a thread of its own.
    pub fn start_with(
        &mut self,
        discovered: ControlResult<StreamParams>,
        cancellation_tx: Tx,
        completion_rx: Rx,
    ) -> (res: StreamResult<StreamingLoop>)
        requires
            old(self).wf(),
        ensures
            final(self).wf(),
            final(self).channel() == old(self).channel(),
            final(self).spec_params() == old(self).params_after_start(discovered),
            match Self::start_defect(discovered, old(self).is_running()) {
                Some(e) => {
                    &&& res matches Err(err)
                    &&& err@ == e
                    &&& final(self).cancellation_tx() == old(self).cancellation_tx()
                    &&& final(self).completion_rx() == old(self).completion_rx()
                },
                None => {
                    &&& res matches Ok(worker)
                    &&& worker.wf()
                    &&& worker.spec_phase() == Phase::Boundary
                    &&& worker.payload_buf() is None
                    &&& worker.inner() == old(self).channel()
                    &&& worker.spec_params() == discovered->Ok_0
                    &&& final(self).is_running()
                    &&& final(self).cancellation_tx() == Some(cancellation_tx)
                    &&& final(self).completion_rx() == Some(completion_rx)
                },
            },
    {
        if self.is_loop_running() {
            return Err(StreamError::InStreaming);
        }
        let params = match discovered {
            Ok(params) => params,
            Err(e) => { return Err(StreamError::Io(StreamIoCause::Setup(e))); },
        };
        self.params = params;

        if params.checked_maximum_payload_size().is_none() {
            return Err(
                StreamError::Io(
                    StreamIoCause::Setup(ControlError::InvalidDevice(MSG_NOT_ADDRESSABLE)),
                ),
            );
        }
        self.cancellation_tx = Some(cancellation_tx);
        self.completion_rx = Some(completion_rx);
        Ok(StreamingLoop::new(self.inner, params))
    }

    /// Discovers the parameters from the device and starts the streaming
    /// loop as `start_with` does.
    ///
    /// A handle whose loop runs refuses the start with `InStreaming`: the
    /// device is not asked, and the handle, its parameters and its signals
    /// stay as they are. Else the outcome is that of `start_with` for what the
    /// discovery gave on the device as it was.
    pub fn start_streaming_loop<Ctrl: DeviceControl + ?Sized>(
        &mut self,
        ctrl: &mut Ctrl,
        cancellation_tx: Tx,
        completion_rx: Rx,
    ) -> (res: StreamResult<StreamingLoop>)
        requires
            old(self).wf(),
        ensures
            final(self).wf(),
            final(self).channel() == old(self).channel(),
            old(self).is_running() ==> {
                &&& res matches Err(StreamError::InStreaming)
                &&& untouched(old(ctrl), final(ctrl))
                &&& final(self).is_running()
                &&& final(self).spec_params() == old(self).spec_params()
                &&& final(self).cancellation_tx() == old(self).cancellation_tx()
                &&& final(self).completion_rx() == old(self).completion_rx()
            },
            !old(self).is_running() ==> exists|discovered: ControlResult<StreamParams>|
                #[trigger] StreamParams::is_discovered(old(ctrl), discovered) && old(self).starts(
                    discovered,
                    cancellation_tx,
                    completion_rx,
                    final(self),
                    res,
                ),
            res matches Ok(worker) ==> {
                &&& worker.wf()
                &&& worker.spec_phase() == Phase::Boundary
                &&& worker.inner() == old(self).channel()
                &&& worker.spec_params() == final(self).spec_params()
                &&& final(self).is_running()
                &&& final(self).cancellation_tx() == Some(cancellation_tx)
                &&& final(self).completion_rx() == Some(completion_rx)
            },
            res is Err ==> {
                &&& final(self).cancellation_tx() == old(self).cancellation_tx()
                &&& final(self).completion_rx() == old(self).completion_rx()
            },
    {
        if self.is_loop_running() {
            return Err(StreamError::InStreaming);
        }
        let discovered = StreamParams::from_control(ctrl);
        self.start_with(discovered, cancellation_tx, completion_rx)
    }

    /// Takes the two ends of the signals out of the handle, where the loop
    /// runs: the cancellation signal is to be sent and completion waited for.
    /// No loop runs after it as far as the handle is concerned.
    pub fn stop_streaming_loop(&mut self) -> (signals: Option<(Tx, Rx)>)
        requires
            old(self).wf(),
        ensures
            final(self).wf(),
            !final(self).is_running(),
            final(self).channel() == old(self).channel(),
            final(self).spec_params() == old(self).spec_params(),
            match signals {
                Some((cancellation_tx, completion_rx)) => {
                    &&& Some(cancellation_tx) == old(self).cancellation_tx()
                    &&& Some(completion_rx) == old(self).completion_rx()
                },
                None => !old(self).is_running(),
            },
    {
        let cancellation_tx = self.cancellation_tx.take();
        let completion_rx = self.completion_rx.take();
        match (cancellation_tx, completion_rx) {
            (Some(cancellation_tx), Some(completion_rx)) => Some((cancellation_tx, completion_rx)),
            _ => None,
        }
    }

    /// What stopping the loop gives: success where the loop signalled
    /// completion or had ended before it could be told, and `Poisoned` where
    /// the loop went away without signalling completion.
    pub fn stopped(outcome: StopOutcome) -> (res: StreamResult<()>)
        ensures
            match outcome {
                StopOutcome::WorkerGone | StopOutcome::Completed => res matches Ok(()),
                StopOutcome::CompletionLost(cause) => res matches Err(
                    StreamError::Poisoned(message),
                ) && message == cause,
            },
    {
        match outcome {
            StopOutcome::WorkerGone | StopOutcome::Completed => Ok(()),
            StopOutcome::CompletionLost(cause) => Err(StreamError::Poisoned(cause)),
        }
    }
}

} // verus!
