//! The control channel and the receive channel of a device.
//!
//! A channel records which interface and endpoints it speaks to and whether
//! the interface is claimed. Its operations name the transactions that the bus
//! has to carry out; `finish_open` and `finish_close` take the outcome.

use crate::transport::{set_halt, TransportResult, UsbRequest};
use std::time::Duration;
use vstd::prelude::*;

verus! {

/// Interface and endpoints of the control channel.
#[derive(Clone, Copy, Debug, PartialEq, Eq, Structural)]
pub struct ControlIfaceInfo {
    pub iface_number: u8,
    pub bulk_in_ep: u8,
    pub bulk_out_ep: u8,
}

/// Interface and endpoint of the receive channel.
#[derive(Clone, Copy, Debug, PartialEq, Eq, Structural)]
pub struct ReceiveIfaceInfo {
    pub iface_number: u8,
    pub bulk_in_ep: u8,
}

/// The transactions that opening a channel on `iface_number` needs.
pub open spec fn open_plan(is_opened: bool, iface_number: u8) -> Seq<UsbRequest> {
    if is_opened {
        seq![]
    } else {
        seq![UsbRequest::ClaimInterface { iface_number }]
    }
}

/// The transactions that closing a channel on `iface_number` needs.
pub open spec fn close_plan(is_opened: bool, iface_number: u8) -> Seq<UsbRequest> {
    if is_opened {
        seq![UsbRequest::ReleaseInterface { iface_number }]
    } else {
        seq![]
    }
}

/// The request that halts `endpoint`.
pub open spec fn halt_request(endpoint: u8, timeout: Duration) -> UsbRequest {
    UsbRequest::WriteControl {
        request_type: crate::transport::ENDPOINT_OUT_STANDARD,
        request: crate::transport::SET_FEATURE,
        value: crate::transport::ENDPOINT_HALT,
        index: endpoint as u16,
        timeout,
    }
}

/// Channel for commands and acknowledges.
#[derive(Clone, Copy, Debug, PartialEq, Eq)]
pub struct ControlChannel {
    pub iface_info: ControlIfaceInfo,
    pub is_opened: bool,
}

impl ControlChannel {
    /// A closed channel on the given interface.
    pub fn new(iface_info: ControlIfaceInfo) -> (channel: Self)
        ensures
            channel == (ControlChannel { iface_info, is_opened: false }),
    {
        Self { iface_info, is_opened: false }
    }

    /// What opening asks of the bus: to claim the interface, and nothing where
    /// the channel is open already.
    pub fn open(&self) -> (plan: Vec<UsbRequest>)
        ensures
            plan@ == open_plan(self.is_opened, self.iface_info.iface_number),
    {
        let mut plan = Vec::new();
        if !self.is_opened() {
            plan.push(UsbRequest::ClaimInterface { iface_number: self.iface_info.iface_number });
        }
        plan
    }

    /// Takes the outcome of the plan that `open` gave: the channel is open
    /// once the plan went through.
    pub fn finish_open(&mut self, outcome: TransportResult<()>) -> (res: TransportResult<()>)
        ensures
            res == outcome,
            final(self).iface_info == old(self).iface_info,
            final(self).is_opened == (old(self).is_opened || outcome is Ok),
    {
        if outcome.is_ok() {
            self.is_opened = true;
        }
        outcome
    }

    /// What closing asks of the bus: to release the interface, and nothing
    /// where the channel is not open.
    pub fn close(&self) -> (plan: Vec<UsbRequest>)
        ensures
            plan@ == close_plan(self.is_opened, self.iface_info.iface_number),
    {
        let mut plan = Vec::new();
        if self.is_opened() {
            plan.push(UsbRequest::ReleaseInterface { iface_number: self.iface_info.iface_number });
        }
        plan
    }

    /// Takes the outcome of the plan that `close` gave: the channel is closed
    /// once the plan went through, and stays as it was where it failed.
    pub fn finish_close(&mut self, outcome: TransportResult<()>) -> (res: TransportResult<()>)
        ensures
            res == outcome,
            final(self).iface_info == old(self).iface_info,
            final(self).is_opened == (old(self).is_opened && outcome is Err),
    {
        if outcome.is_ok() {
            self.is_opened = false;
        }
        outcome
    }

    #[must_use]
    pub fn is_opened(&self) -> (opened: bool)
        ensures
            opened == self.is_opened,
    {
        self.is_opened
    }

    /// The transfer that sends the first `len` bytes of a buffer to the device.
    pub fn send(&self, len: usize, timeout: Duration) -> (request: UsbRequest)
        ensures
            request == (UsbRequest::WriteBulk {
                endpoint: self.iface_info.bulk_out_ep,
                len,
                timeout,
            }),
    {
        UsbRequest::WriteBulk { endpoint: self.iface_info.bulk_out_ep, len, timeout }
    }

    /// The transfer that receives at most `len` bytes from the device.
    pub fn recv(&self, len: usize, timeout: Duration) -> (request: UsbRequest)
        ensures
            request == (UsbRequest::ReadBulk {
                endpoint: self.iface_info.bulk_in_ep,
                len,
                timeout,
            }),
    {
        UsbRequest::ReadBulk { endpoint: self.iface_info.bulk_in_ep, len, timeout }
    }

    /// The transfers that halt both endpoints: the inbound one first.
    pub fn set_halt(&self, timeout: Duration) -> (plan: Vec<UsbRequest>)
        ensures
            plan@ == seq![
                halt_request(self.iface_info.bulk_in_ep, timeout),
                halt_request(self.iface_info.bulk_out_ep, timeout),
            ],
    {
        let mut plan = Vec::new();
        plan.push(set_halt(self.iface_info.bulk_in_ep, timeout));
        plan.push(set_halt(self.iface_info.bulk_out_ep, timeout));
        plan
    }

    /// The requests that clear the halt of both endpoints: the inbound one
    /// first.
    pub fn clear_halt(&self) -> (plan: Vec<UsbRequest>)
        ensures
            plan@ == seq![
                UsbRequest::ClearHalt { endpoint: self.iface_info.bulk_in_ep },
                UsbRequest::ClearHalt { endpoint: self.iface_info.bulk_out_ep },
            ],
    {
        let mut plan = Vec::new();
        plan.push(UsbRequest::ClearHalt { endpoint: self.iface_info.bulk_in_ep });
        plan.push(UsbRequest::ClearHalt { endpoint: self.iface_info.bulk_out_ep });
        plan
    }
}

/// Channel that carries the stream.
#[derive(Clone, Copy, Debug, PartialEq, Eq)]
pub struct ReceiveChannel {
    pub iface_info: ReceiveIfaceInfo,
    pub is_opened: bool,
}

impl ReceiveChannel {
    /// A closed channel on the given interface.
    pub fn new(iface_info: ReceiveIfaceInfo) -> (channel: Self)
        ensures
            channel == (ReceiveChannel { iface_info, is_opened: false }),
    {
        Self { iface_info, is_opened: false }
    }

    /// What opening asks of the bus: to claim the interface, and nothing where
    /// the channel is open already.
    pub fn open(&self) -> (plan: Vec<UsbRequest>)
        ensures
            plan@ == open_plan(self.is_opened, self.iface_info.iface_number),
    {
        let mut plan = Vec::new();
        if !self.is_opened() {
            plan.push(UsbRequest::ClaimInterface { iface_number: self.iface_info.iface_number });
        }
        plan
    }

    /// Takes the outcome of the plan that `open` gave: the channel is open
    /// once the plan went through.
    pub fn finish_open(&mut self, outcome: TransportResult<()>) -> (res: TransportResult<()>)
        ensures
            res == outcome,
            final(self).iface_info == old(self).iface_info,
            final(self).is_opened == (old(self).is_opened || outcome is Ok),
    {
        if outcome.is_ok() {
            self.is_opened = true;
        }
        outcome
    }

    /// What closing asks of the bus: to release the interface, and nothing
    /// where the channel is not open.
    pub fn close(&self) -> (plan: Vec<UsbRequest>)
        ensures
            plan@ == close_plan(self.is_opened, self.iface_info.iface_number),
    {
        let mut plan = Vec::new();
        if self.is_opened() {
            plan.push(UsbRequest::ReleaseInterface { iface_number: self.iface_info.iface_number });
        }
        plan
    }

    /// Takes the outcome of the plan that `close` gave: the channel is closed
    /// once the plan went through, and stays as it was where it failed.
    pub fn finish_close(&mut self, outcome: TransportResult<()>) -> (res: TransportResult<()>)
        ensures
            res == outcome,
            final(self).iface_info == old(self).iface_info,
            final(self).is_opened == (old(self).is_opened && outcome is Err),
    {
        if outcome.is_ok() {
            self.is_opened = false;
        }
        outcome
    }

    #[must_use]
    pub fn is_opened(&self) -> (opened: bool)
        ensures
            opened == self.is_opened,
    {
        self.is_opened
    }

    /// The transfer that receives at most `len` bytes of the stream.
    pub fn recv(&self, len: usize, timeout: Duration) -> (request: UsbRequest)
        ensures
            request == (UsbRequest::ReadBulk {
                endpoint: self.iface_info.bulk_in_ep,
                len,
                timeout,
            }),
    {
        UsbRequest::ReadBulk { endpoint: self.iface_info.bulk_in_ep, len, timeout }
    }

    /// The transfer that halts the inbound endpoint.
    pub fn set_halt(&self, timeout: Duration) -> (plan: Vec<UsbRequest>)
        ensures
            plan@ == seq![halt_request(self.iface_info.bulk_in_ep, timeout)],
    {
        let mut plan = Vec::new();
        plan.push(set_halt(self.iface_info.bulk_in_ep, timeout));
        plan
    }

    /// The request that clears the halt of the inbound endpoint.
    pub fn clear_halt(&self) -> (plan: Vec<UsbRequest>)
        ensures
            plan@ == seq![UsbRequest::ClearHalt { endpoint: self.iface_info.bulk_in_ep }],
    {
        let mut plan = Vec::new();
        plan.push(UsbRequest::ClearHalt { endpoint: self.iface_info.bulk_in_ep });
        plan
    }
}

/// Opening twice asks nothing of the bus the second time, and closing a
/// channel that was never opened asks nothing either.
pub proof fn lemma_open_close_idempotent(iface_number: u8)
    ensures
        open_plan(true, iface_number).len() == 0,
        close_plan(false, iface_number).len() == 0,
        open_plan(false, iface_number) == seq![UsbRequest::ClaimInterface { iface_number }],
        close_plan(true, iface_number) == seq![UsbRequest::ReleaseInterface { iface_number }],
{
}

} // verus!
