//! Parameters that size one stream: transfer sizes, counts and the timeout.

use crate::error::{ControlError, ControlResult};
use crate::register_map::{
    reads_u32, stream_register_offset, Abrm, DeviceControl, Sbrm, Sirm, StreamRegisters,
    ABRM_MAXIMUM_DEVICE_RESPONSE_TIME, MSG_NO_SIRM, SIRM_MAXIMUM_LEADER_SIZE,
    SIRM_MAXIMUM_TRAILER_SIZE, SIRM_PAYLOAD_FINAL_TRANSFER1_SIZE,
    SIRM_PAYLOAD_FINAL_TRANSFER2_SIZE, SIRM_PAYLOAD_TRANSFER_COUNT, SIRM_PAYLOAD_TRANSFER_SIZE,
};
use std::time::Duration;
use vstd::prelude::*;

verus! {

/// The duration that `Duration::from_millis` makes of a number of milliseconds.
pub uninterp spec fn duration_from_millis(millis: u64) -> Duration;

/// Calls `std::time::Duration::from_millis`. The result is a function of the
/// argument alone; the contract gives it its name and claims nothing else.
#[verifier::external_body]
pub(crate) fn millis(ms: u64) -> (d: Duration)
    ensures
        d == duration_from_millis(ms),
{
    Duration::from_millis(ms)
}

/// Parameters to receive stream packets.
///
/// The integrity of the parameters is up to the user: nothing here checks them
/// against what the device can do.
#[derive(Debug, Clone, Copy)]
pub struct StreamParams {
    /// Maximum leader size.
    pub leader_size: usize,
    /// Maximum trailer size.
    pub trailer_size: usize,
    /// Payload transfer size.
    pub payload_size: usize,
    /// Payload transfer count.
    pub payload_count: usize,
    /// Payload transfer final1 size.
    pub payload_final1_size: usize,
    /// Payload transfer final2 size.
    pub payload_final2_size: usize,
    /// Timeout duration of each transaction between device.
    pub timeout: Duration,
}

impl StreamParams {
    /// Upper bound of the payload size as a mathematical integer.
    pub open spec fn spec_maximum_payload_size(&self) -> int {
        self.payload_size * self.payload_count + self.payload_final1_size
            + self.payload_final2_size
    }

    /// The parameters of a stream that nothing is known of: every size is 0
    /// and so is the timeout.
    pub open spec fn spec_default() -> StreamParams {
        StreamParams {
            leader_size: 0,
            trailer_size: 0,
            payload_size: 0,
            payload_count: 0,
            payload_final1_size: 0,
            payload_final2_size: 0,
            timeout: duration_from_millis(0),
        }
    }

    /// Whether the upper bound of the payload size is a machine word.
    pub open spec fn is_addressable(&self) -> bool {
        self.spec_maximum_payload_size() <= usize::MAX
    }

    /// Construct `StreamParams`.
    #[must_use]
    pub fn new(
        leader_size: usize,
        trailer_size: usize,
        payload_size: usize,
        payload_count: usize,
        payload_final1_size: usize,
        payload_final2_size: usize,
        timeout: Duration,
    ) -> (params: Self)
        ensures
            params == (StreamParams {
                leader_size,
                trailer_size,
                payload_size,
                payload_count,
                payload_final1_size,
                payload_final2_size,
                timeout,
            }),
    {
        Self {
            leader_size,
            trailer_size,
            payload_size,
            payload_count,
            payload_final1_size,
            payload_final2_size,
            timeout,
        }
    }

    /// Return upper bound of payload size calculated by current `StreamParams` values.
    ///
    /// NOTE: Payload size may dynamically change according to settings of camera.
    pub fn maximum_payload_size(&self) -> (size: usize)
        requires
            self.is_addressable(),
        ensures
            size == self.payload_size * self.payload_count + self.payload_final1_size
                + self.payload_final2_size,
    {
        assert(self.payload_size * self.payload_count >= 0) by (nonlinear_arith);
        self.payload_size * self.payload_count + self.payload_final1_size
            + self.payload_final2_size
    }

    /// The parameters that the registers of a device ask for: every size in
    /// machine words, the response time of the device as timeout.
    pub open spec fn spec_from_registers(
        registers: StreamRegisters,
        response_time_ms: u32,
    ) -> StreamParams {
        StreamParams {
            leader_size: registers.maximum_leader_size as usize,
            trailer_size: registers.maximum_trailer_size as usize,
            payload_size: registers.payload_transfer_size as usize,
            payload_count: registers.payload_transfer_count as usize,
            payload_final1_size: registers.payload_final_transfer1_size as usize,
            payload_final2_size: registers.payload_final_transfer2_size as usize,
            timeout: duration_from_millis(response_time_ms as u64),
        }
    }

    /// Build `StreamParams` from the values of the registers of a device.
    pub fn from_registers(registers: StreamRegisters, response_time_ms: u32) -> (params: Self)
        ensures
            params == Self::spec_from_registers(registers, response_time_ms),
    {
        Self::new(
            registers.maximum_leader_size as usize,
            registers.maximum_trailer_size as usize,
            registers.payload_transfer_size as usize,
            registers.payload_transfer_count as usize,
            registers.payload_final_transfer1_size as usize,
            registers.payload_final_transfer2_size as usize,
            millis(response_time_ms as u64),
        )
    }

    /// Whether `res` is what the end of the discovery may give, once the
    /// registers before the `index`th of those that size the stream were read
    /// into `registers`: the device is asked for each register that is left
    /// in turn and then for its response time, the first read that fails
    /// gives the error, and else `from_registers` makes the parameters of
    /// what was read.
    pub open spec fn sizes_are_discovered<Ctrl: DeviceControl + ?Sized>(
        sirm: Sirm,
        index: int,
        registers: StreamRegisters,
        res: ControlResult<StreamParams>,
    ) -> bool
        decreases 6 - index,
    {
        if index >= 6 {
            exists|device: &Ctrl, time: ControlResult<u32>| #[trigger]
                reads_u32(device, 0, ABRM_MAXIMUM_DEVICE_RESPONSE_TIME, time) && res == (
                match time {
                    Ok(response_time_ms) => Ok::<StreamParams, ControlError>(
                        Self::spec_from_registers(registers, response_time_ms),
                    ),
                    Err(e) => Err::<StreamParams, ControlError>(e),
                })
        } else {
            exists|device: &Ctrl, size: ControlResult<u32>| #[trigger]
                reads_u32(device, sirm.sirm_addr, stream_register_offset(index), size) && (
                match size {
                    Ok(value) => Self::sizes_are_discovered::<Ctrl>(
                        sirm,
                        index + 1,
                        registers.with_register(index, value),
                        res,
                    ),
                    Err(e) => res == Err::<StreamParams, ControlError>(e),
                })
        }
    }

    /// Whether `res` is what the discovery may give from the SBRM on: the
    /// device is asked for its SIRM; where that fails the error is given,
    /// where the device has none it is invalid, and else the registers of the
    /// SIRM are read.
    pub open spec fn sirm_is_discovered<Ctrl: DeviceControl + ?Sized>(
        sbrm: Sbrm,
        res: ControlResult<StreamParams>,
    ) -> bool {
        exists|device: &Ctrl, found: ControlResult<Option<Sirm>>| #[trigger]
            sbrm.sirm_is_read(device, found) && (match found {
                Ok(Some(sirm)) => Self::sizes_are_discovered::<Ctrl>(
                    sirm,
                    0,
                    StreamRegisters::unread(),
                    res,
                ),
                Ok(None) => res == Err::<StreamParams, ControlError>(
                    ControlError::InvalidDevice(MSG_NO_SIRM),
                ),
                Err(e) => res == Err::<StreamParams, ControlError>(e),
            })
    }

    /// Whether `res` is what the discovery may give from the ABRM on: the
    /// device is asked for its SBRM; where that fails the error is given, and
    /// else the discovery goes on from the SBRM.
    pub open spec fn sbrm_is_discovered<Ctrl: DeviceControl + ?Sized>(
        res: ControlResult<StreamParams>,
    ) -> bool {
        exists|device: &Ctrl, found: ControlResult<Sbrm>| #[trigger]
            Abrm::sbrm_is_read(device, found) && (match found {
                Ok(sbrm) => Self::sirm_is_discovered::<Ctrl>(sbrm, res),
                Err(e) => res == Err::<StreamParams, ControlError>(e),
            })
    }

    /// Whether `res` is what the discovery of the streaming parameters may
    /// give on the device as it is.
    ///
    /// The device is asked, in this order, for its ABRM, for its SBRM at the
    /// address that the ABRM holds, for its SIRM at the address that the SBRM
    /// holds, for the six registers of the SIRM that size the stream, and for
    /// its response time. Each read is answered by the device as it is at
    /// that time. The first read that fails ends the discovery with its
    /// error, a device without SIRM ends it with `InvalidDevice`, and else the
    /// parameters are those that `from_registers` makes of what was read.
    pub open spec fn is_discovered<Ctrl: DeviceControl + ?Sized>(
        device: &Ctrl,
        res: ControlResult<StreamParams>,
    ) -> bool {
        exists|found: ControlResult<Abrm>| #[trigger]
            Abrm::is_read(device, found) && (match found {
                Ok(_) => Self::sbrm_is_discovered::<Ctrl>(res),
                Err(e) => res == Err::<StreamParams, ControlError>(e),
            })
    }

    /// Build `StreamParams` from [`DeviceControl`].
    ///
    /// Walks from the ABRM over the SBRM to the SIRM, reads the six registers
    /// that size the stream and the response time of the device. The first
    /// transaction that fails ends the walk with its error; a device without
    /// SIRM ends it with `InvalidDevice`. What the device answers decides the
    /// rest: the parameters are those that `from_registers` makes of the
    /// values read.
    pub fn from_control<Ctrl: DeviceControl + ?Sized>(ctrl: &mut Ctrl) -> (res: ControlResult<
        Self,
    >)
        ensures
            Self::is_discovered(old(ctrl), res),
    {
        proof {
            reveal_with_fuel(StreamParams::sizes_are_discovered, 8);
            assert(stream_register_offset(0) == SIRM_MAXIMUM_LEADER_SIZE);
            assert(stream_register_offset(1) == SIRM_MAXIMUM_TRAILER_SIZE);
            assert(stream_register_offset(2) == SIRM_PAYLOAD_TRANSFER_SIZE);
            assert(stream_register_offset(3) == SIRM_PAYLOAD_TRANSFER_COUNT);
            assert(stream_register_offset(4) == SIRM_PAYLOAD_FINAL_TRANSFER1_SIZE);
            assert(stream_register_offset(5) == SIRM_PAYLOAD_FINAL_TRANSFER2_SIZE);
        }
        let abrm = Abrm::new(ctrl)?;
        let sirm = Sirm::required(abrm.sbrm(ctrl)?.sirm(ctrl)?)?;
        let maximum_leader_size = sirm.maximum_leader_size(ctrl)?;
        let maximum_trailer_size = sirm.maximum_trailer_size(ctrl)?;

        let payload_transfer_size = sirm.payload_transfer_size(ctrl)?;
        let payload_transfer_count = sirm.payload_transfer_count(ctrl)?;
        let payload_final_transfer1_size = sirm.payload_final_transfer1_size(ctrl)?;
        let payload_final_transfer2_size = sirm.payload_final_transfer2_size(ctrl)?;
        let response_time_ms = abrm.maximum_device_response_time(ctrl)?;

        let registers = StreamRegisters {
            maximum_leader_size,
            maximum_trailer_size,
            payload_transfer_size,
            payload_transfer_count,
            payload_final_transfer1_size,
            payload_final_transfer2_size,
        };
        Ok(Self::from_registers(registers, response_time_ms))
    }

    /// The upper bound of the payload size, or `None` where it is no machine word.
    pub fn checked_maximum_payload_size(&self) -> (size: Option<usize>)
        ensures
            self.is_addressable() ==> size == Some(self.spec_maximum_payload_size() as usize),
            !self.is_addressable() ==> size is None,
    {
        assert(self.payload_size * self.payload_count >= 0) by (nonlinear_arith);
        match self.payload_size.checked_mul(self.payload_count) {
            None => None,
            Some(main) => match main.checked_add(self.payload_final1_size) {
                None => None,
                Some(with_final1) => with_final1.checked_add(self.payload_final2_size),
            },
        }
    }
}

impl Default for StreamParams {
    fn default() -> (params: Self)
        ensures
            params == StreamParams::spec_default(),
    {
        StreamParams::new(0, 0, 0, 0, 0, 0, millis(0))
    }
}

} // verus!
