//! Typed access to the register blocks of a device: the bootstrap registers
//! (ABRM), the registers of the technology (SBRM) and the registers of the
//! stream interface (SIRM). The blocks are found by following addresses that
//! the device holds: ABRM to SBRM to SIRM.

use crate::error::{ControlError, ControlResult};
use crate::protocol::{le_u32, le_u64, read_u32_le, read_u64_le};
use crate::text::utf8_text;
use vstd::prelude::*;
use vstd::utf8::{decode_utf8, valid_utf8};

verus! {

/// Address of the serial number in the ABRM.
pub const ABRM_SERIAL_NUMBER: u64 = 0x0144;

/// Length of a register of the ABRM that holds text.
pub const TEXT_REGISTER_LEN: usize = 64;

/// Address of the device capability register in the ABRM: eight bytes.
pub const ABRM_DEVICE_CAPABILITY: u64 = 0x01C4;

/// Address of the maximum device response time in the ABRM: four bytes,
/// milliseconds.
pub const ABRM_MAXIMUM_DEVICE_RESPONSE_TIME: u64 = 0x01CC;

/// Address of the register in the ABRM that holds the address of the SBRM:
/// eight bytes.
pub const ABRM_SBRM_ADDRESS: u64 = 0x01D8;

/// Offset of the capability register in the SBRM: eight bytes.
pub const SBRM_CAPABILITY: u64 = 0x0004;

/// Offset of the register in the SBRM that holds the address of the SIRM:
/// eight bytes.
pub const SBRM_SIRM_ADDRESS: u64 = 0x0020;

/// Offset of the maximum leader size in the SIRM: four bytes.
pub const SIRM_MAXIMUM_LEADER_SIZE: u64 = 0x0018;

/// Offset of the payload transfer size in the SIRM: four bytes.
pub const SIRM_PAYLOAD_TRANSFER_SIZE: u64 = 0x001C;

/// Offset of the payload transfer count in the SIRM: four bytes.
pub const SIRM_PAYLOAD_TRANSFER_COUNT: u64 = 0x0020;

/// Offset of the size of the first final payload transfer in the SIRM: four
/// bytes.
pub const SIRM_PAYLOAD_FINAL_TRANSFER1_SIZE: u64 = 0x0024;

/// Offset of the size of the second final payload transfer in the SIRM: four
/// bytes.
pub const SIRM_PAYLOAD_FINAL_TRANSFER2_SIZE: u64 = 0x0028;

/// Offset of the maximum trailer size in the SIRM: four bytes.
pub const SIRM_MAXIMUM_TRAILER_SIZE: u64 = 0x002C;

/// Message of the error for a device without SIRM.
pub const MSG_NO_SIRM: &'static str = "the GEV device doesn't have `SIRM`";

/// Message of the error for a text register whose bytes are no text.
pub const MSG_TEXT: &'static str = "text register is not encoded in UTF-8";

/// Message of the error for a register block that the device places beyond
/// the end of the address space.
pub const MSG_ADDRESS: &'static str = "register address is out of range";

/// Whether the device is as it was: nothing was asked of it.
pub open spec fn untouched<Ctrl: ?Sized>(before: &Ctrl, after: &Ctrl) -> bool {
    before == after
}

/// The failure of a result, if it is one.
pub open spec fn failure_of<T>(res: ControlResult<T>) -> Option<ControlError> {
    match res {
        Ok(_) => None,
        Err(e) => Some(e),
    }
}

/// Access to the memory of a device. Implementations carry out the read and
/// write transactions on the control channel.
pub trait DeviceControl {
    /// Whether a read of `len` bytes at `address` may find the device as it
    /// is, end with `failure` (with none where it succeeds) and leave `bytes`
    /// in the buffer.
    ///
    /// An implementation says here what its `read` does. One that has nothing
    /// to say leaves this as it is: it holds of every read.
    open spec fn read_answers(
        &self,
        address: u64,
        len: nat,
        bytes: Seq<u8>,
        failure: Option<ControlError>,
    ) -> bool {
        true
    }

    /// Reads `buf.len()` bytes at `address` of the device's memory into `buf`.
    ///
    /// The first clause holds of every implementation: a slice keeps its
    /// length. The second gives the read its name, `read_answers`, and claims
    /// nothing of it: the implementation says what that is.
    fn read(&mut self, address: u64, buf: &mut [u8]) -> (res: ControlResult<()>)
        ensures
            final(buf)@.len() == old(buf)@.len(),
            old(self).read_answers(address, old(buf)@.len(), final(buf)@, failure_of(res)),
    ;

    /// Writes `data` at `address` of the device's memory.
    fn write(&mut self, address: u64, data: &[u8]) -> ControlResult<()>;
}

/// What reading a register gives for an address beyond the address space.
pub open spec fn out_of_range<T>() -> ControlResult<T> {
    Err(ControlError::InvalidDevice(MSG_ADDRESS))
}

/// Whether the device as it is may answer a read of the register of four
/// bytes at `address` with `res`: the read fails with the error of `res`, or
/// leaves bytes in the buffer that hold the value of `res`, least significant
/// byte first.
pub open spec fn answers_u32<Ctrl: DeviceControl + ?Sized>(
    device: &Ctrl,
    address: u64,
    res: ControlResult<u32>,
) -> bool {
    exists|bytes: Seq<u8>|
        bytes.len() == 4 && #[trigger] device.read_answers(address, 4, bytes, failure_of(res)) && (
        res matches Ok(value) ==> value == le_u32(bytes, 0))
}

/// Whether the device as it is may answer a read of the register of eight
/// bytes at `address` with `res`.
pub open spec fn answers_u64<Ctrl: DeviceControl + ?Sized>(
    device: &Ctrl,
    address: u64,
    res: ControlResult<u64>,
) -> bool {
    exists|bytes: Seq<u8>|
        bytes.len() == 8 && #[trigger] device.read_answers(address, 8, bytes, failure_of(res)) && (
        res matches Ok(value) ==> value == le_u64(bytes, 0))
}

/// What reading the register of four bytes at `offset` in the block at `base`
/// gives: the error for an address beyond the address space, with the device
/// asked nothing, and else what the device answers to one read at that
/// address.
pub open spec fn reads_u32<Ctrl: DeviceControl + ?Sized>(
    device: &Ctrl,
    base: u64,
    offset: u64,
    res: ControlResult<u32>,
) -> bool {
    if base + offset > u64::MAX {
        res == out_of_range::<u32>()
    } else {
        answers_u32(device, (base + offset) as u64, res)
    }
}

/// What reading the register of eight bytes at `offset` in the block at
/// `base` gives: the error for an address beyond the address space, with the
/// device asked nothing, and else what the device answers to one read at that
/// address.
pub open spec fn reads_u64<Ctrl: DeviceControl + ?Sized>(
    device: &Ctrl,
    base: u64,
    offset: u64,
    res: ControlResult<u64>,
) -> bool {
    if base + offset > u64::MAX {
        res == out_of_range::<u64>()
    } else {
        answers_u64(device, (base + offset) as u64, res)
    }
}

/// The address of the register at `offset` in the block at `base`.
pub fn register_address(base: u64, offset: u64) -> (res: ControlResult<u64>)
    ensures
        base + offset <= u64::MAX ==> res == Ok::<u64, ControlError>((base + offset) as u64),
        base + offset > u64::MAX ==> res == Err::<u64, ControlError>(
            ControlError::InvalidDevice(MSG_ADDRESS),
        ),
{
    match base.checked_add(offset) {
        Some(address) => Ok(address),
        None => Err(ControlError::InvalidDevice(MSG_ADDRESS)),
    }
}

/// Reads the register of four bytes at `offset` in the block at `base`. It
/// fails without a transaction where the register lies beyond the address
/// space, and with the error of the transaction where that fails.
pub fn read_u32_register<Ctrl: DeviceControl + ?Sized>(
    ctrl: &mut Ctrl,
    base: u64,
    offset: u64,
) -> (res: ControlResult<u32>)
    ensures
        reads_u32(old(ctrl), base, offset, res),
{
    let address = register_address(base, offset)?;
    let mut buf: Vec<u8> = vec![0u8; 4];
    ctrl.read(address, buf.as_mut_slice())?;
    Ok(read_u32_le(buf.as_slice(), 0))
}

/// Reads the register of eight bytes at `offset` in the block at `base`. It
/// fails without a transaction where the register lies beyond the address
/// space, and with the error of the transaction where that fails.
pub fn read_u64_register<Ctrl: DeviceControl + ?Sized>(
    ctrl: &mut Ctrl,
    base: u64,
    offset: u64,
) -> (res: ControlResult<u64>)
    ensures
        reads_u64(old(ctrl), base, offset, res),
{
    let address = register_address(base, offset)?;
    let mut buf: Vec<u8> = vec![0u8; 8];
    ctrl.read(address, buf.as_mut_slice())?;
    Ok(read_u64_le(buf.as_slice(), 0))
}

/// The place of the first byte from `at` on that is 0, or the length of the
/// bytes where none is.
pub open spec fn text_end(bytes: Seq<u8>, at: int) -> int
    decreases bytes.len() - at,
{
    if 0 <= at < bytes.len() && bytes[at] != 0 {
        text_end(bytes, at + 1)
    } else {
        at
    }
}

/// The bytes of the text in a text register: those in front of the first
/// byte that is 0, and all of them where none is 0.
pub open spec fn text_bytes(bytes: Seq<u8>) -> Seq<u8> {
    bytes.subrange(0, text_end(bytes, 0))
}

/// Whether `res` is what the bytes of a text register give: the text that
/// the bytes in front of the first 0 encode in UTF-8, or the error for bytes
/// that encode none.
pub open spec fn is_text_of(bytes: Seq<u8>, res: ControlResult<String>) -> bool {
    if valid_utf8(text_bytes(bytes)) {
        res matches Ok(text) && text@ == decode_utf8(text_bytes(bytes))
    } else {
        res == Err::<String, ControlError>(ControlError::InvalidDevice(MSG_TEXT))
    }
}

/// The text that the bytes of a text register hold: the text ends at the
/// first byte that is 0 or fills the register, and is encoded in UTF-8.
pub fn text_of_register(bytes: &[u8]) -> (res: ControlResult<String>)
    ensures
        is_text_of(bytes@, res),
{
    let mut end: usize = 0;
    while end < bytes.len() && bytes[end] != 0
        invariant
            end <= bytes@.len(),
            text_end(bytes@, 0) == text_end(bytes@, end as int),
        decreases bytes@.len() - end,
    {
        end = end + 1;
    }
    match utf8_text(&bytes[0..end]) {
        Some(text) => Ok(text),
        None => Err(ControlError::InvalidDevice(MSG_TEXT)),
    }
}

/// Whether the lowest bit of a capability register is set.
pub open spec fn lowest_bit(capability: u64) -> bool {
    capability % 2 == 1
}

/// The bootstrap register map.
#[derive(Clone, Copy, Debug, PartialEq, Eq, Structural)]
pub struct Abrm {
    pub device_capability: u64,
}

impl Abrm {
    /// Whether `res` is what reading the ABRM of the device as it is may
    /// give: one read of the device capability, whose value makes the ABRM and
    /// whose failure is the error.
    pub open spec fn is_read<Ctrl: DeviceControl + ?Sized>(
        device: &Ctrl,
        res: ControlResult<Abrm>,
    ) -> bool {
        reads_u64(
            device,
            0,
            ABRM_DEVICE_CAPABILITY,
            match res {
                Ok(abrm) => Ok(abrm.device_capability),
                Err(e) => Err(e),
            },
        )
    }

    /// Whether `res` is what reading the serial number of the device as it is
    /// may give: one read of the text register of the serial number, whose
    /// failure is the error and whose bytes else give the text or the error
    /// for bytes that are none.
    pub open spec fn serial_number_is_read<Ctrl: DeviceControl + ?Sized>(
        device: &Ctrl,
        res: ControlResult<String>,
    ) -> bool {
        exists|bytes: Seq<u8>, failure: Option<ControlError>|
            bytes.len() == TEXT_REGISTER_LEN && #[trigger] device.read_answers(
                ABRM_SERIAL_NUMBER,
                TEXT_REGISTER_LEN as nat,
                bytes,
                failure,
            ) && (match failure {
                Some(e) => res == Err::<String, ControlError>(e),
                None => is_text_of(bytes, res),
            })
    }

    /// Whether `res` is what finding the SBRM of the device as it is may
    /// give: the error of the read of its address, or what reading the SBRM
    /// at the address that was read gives.
    pub open spec fn sbrm_is_read<Ctrl: DeviceControl + ?Sized>(
        device: &Ctrl,
        res: ControlResult<Sbrm>,
    ) -> bool {
        ||| res matches Err(e) && reads_u64(device, 0, ABRM_SBRM_ADDRESS, Err(e))
        ||| exists|next: &Ctrl, sbrm_addr: u64|
            reads_u64(device, 0, ABRM_SBRM_ADDRESS, Ok(sbrm_addr)) && #[trigger] Sbrm::is_read(
                next,
                sbrm_addr,
                res,
            )
    }

    /// Reads the device capability, which says what the ABRM holds.
    pub fn new<Ctrl: DeviceControl + ?Sized>(ctrl: &mut Ctrl) -> (res: ControlResult<Self>)
        ensures
            Self::is_read(old(ctrl), res),
    {
        let device_capability = read_u64_register(ctrl, 0, ABRM_DEVICE_CAPABILITY)?;
        Ok(Self { device_capability })
    }

    /// Reads the serial number of the device.
    pub fn serial_number<Ctrl: DeviceControl + ?Sized>(&self, ctrl: &mut Ctrl) -> (res:
        ControlResult<String>)
        ensures
            Self::serial_number_is_read(old(ctrl), res),
    {
        let mut buf: Vec<u8> = vec![0u8; TEXT_REGISTER_LEN];
        ctrl.read(ABRM_SERIAL_NUMBER, buf.as_mut_slice())?;
        text_of_register(buf.as_slice())
    }

    /// Whether the device keeps a name that the user defines.
    pub fn is_user_defined_name_supported(&self) -> (supported: bool)
        ensures
            supported == lowest_bit(self.device_capability),
    {
        self.device_capability % 2 == 1
    }

    /// Reads the address of the SBRM and the capability register in it.
    pub fn sbrm<Ctrl: DeviceControl + ?Sized>(&self, ctrl: &mut Ctrl) -> (res: ControlResult<
        Sbrm,
    >)
        ensures
            Self::sbrm_is_read(old(ctrl), res),
    {
        let sbrm_addr = read_u64_register(ctrl, 0, ABRM_SBRM_ADDRESS)?;
        Sbrm::new(ctrl, sbrm_addr)
    }

    /// Reads the time in milliseconds within which the device answers.
    pub fn maximum_device_response_time<Ctrl: DeviceControl + ?Sized>(
        &self,
        ctrl: &mut Ctrl,
    ) -> (res: ControlResult<u32>)
        ensures
            reads_u32(old(ctrl), 0, ABRM_MAXIMUM_DEVICE_RESPONSE_TIME, res),
    {
        read_u32_register(ctrl, 0, ABRM_MAXIMUM_DEVICE_RESPONSE_TIME)
    }
}

/// The register map of the technology.
#[derive(Clone, Copy, Debug, PartialEq, Eq, Structural)]
pub struct Sbrm {
    pub sbrm_addr: u64,
    pub capability: u64,
}

impl Sbrm {
    /// Whether `res` is what reading the SBRM at `sbrm_addr` of the device as
    /// it is may give: one read of the capability register, whose value makes
    /// the SBRM at that address and whose failure is the error.
    pub open spec fn is_read<Ctrl: DeviceControl + ?Sized>(
        device: &Ctrl,
        sbrm_addr: u64,
        res: ControlResult<Sbrm>,
    ) -> bool {
        &&& res matches Ok(sbrm) ==> sbrm.sbrm_addr == sbrm_addr
        &&& reads_u64(
            device,
            sbrm_addr,
            SBRM_CAPABILITY,
            match res {
                Ok(sbrm) => Ok(sbrm.capability),
                Err(e) => Err(e),
            },
        )
    }

    /// Whether `res` is what finding the SIRM of the device as it is may
    /// give: nothing for a device without stream interface, which is asked
    /// nothing, and else one read of the address of the SIRM, whose value
    /// makes the SIRM and whose failure is the error.
    pub open spec fn sirm_is_read<Ctrl: DeviceControl + ?Sized>(
        self,
        device: &Ctrl,
        res: ControlResult<Option<Sirm>>,
    ) -> bool {
        if lowest_bit(self.capability) {
            match res {
                Ok(Some(sirm)) => reads_u64(
                    device,
                    self.sbrm_addr,
                    SBRM_SIRM_ADDRESS,
                    Ok(sirm.sirm_addr),
                ),
                Ok(None) => false,
                Err(e) => reads_u64(device, self.sbrm_addr, SBRM_SIRM_ADDRESS, Err(e)),
            }
        } else {
            res == Ok::<Option<Sirm>, ControlError>(None)
        }
    }

    /// Reads the capability register of the SBRM at `sbrm_addr`.
    pub fn new<Ctrl: DeviceControl + ?Sized>(ctrl: &mut Ctrl, sbrm_addr: u64) -> (res:
        ControlResult<Self>)
        ensures
            Self::is_read(old(ctrl), sbrm_addr, res),
    {
        let capability = read_u64_register(ctrl, sbrm_addr, SBRM_CAPABILITY)?;
        Ok(Self { sbrm_addr, capability })
    }

    /// Whether the device has a stream interface.
    pub fn is_sirm_available(&self) -> (available: bool)
        ensures
            available == lowest_bit(self.capability),
    {
        self.capability % 2 == 1
    }

    /// Reads the address of the SIRM. A device without stream interface has
    /// none, and is asked nothing.
    pub fn sirm<Ctrl: DeviceControl + ?Sized>(&self, ctrl: &mut Ctrl) -> (res: ControlResult<
        Option<Sirm>,
    >)
        ensures
            self.sirm_is_read(old(ctrl), res),
    {
        if self.is_sirm_available() {
            let sirm_addr = read_u64_register(ctrl, self.sbrm_addr, SBRM_SIRM_ADDRESS)?;
            Ok(Some(Sirm { sirm_addr }))
        } else {
            Ok(None)
        }
    }
}

/// The register map of the stream interface.
#[derive(Clone, Copy, Debug, PartialEq, Eq, Structural)]
pub struct Sirm {
    pub sirm_addr: u64,
}

/// The values of the SIRM that size a stream.
#[derive(Clone, Copy, Debug, PartialEq, Eq, Structural)]
pub struct StreamRegisters {
    pub maximum_leader_size: u32,
    pub maximum_trailer_size: u32,
    pub payload_transfer_size: u32,
    pub payload_transfer_count: u32,
    pub payload_final_transfer1_size: u32,
    pub payload_final_transfer2_size: u32,
}

/// The offset in the SIRM of the register that is read as the `index`th of
/// those that size a stream: the maximum sizes of leader and trailer first,
/// then size and count of the payload transfers and the sizes of the two
/// final transfers.
pub open spec fn stream_register_offset(index: int) -> u64 {
    if index == 0 {
        SIRM_MAXIMUM_LEADER_SIZE
    } else if index == 1 {
        SIRM_MAXIMUM_TRAILER_SIZE
    } else if index == 2 {
        SIRM_PAYLOAD_TRANSFER_SIZE
    } else if index == 3 {
        SIRM_PAYLOAD_TRANSFER_COUNT
    } else if index == 4 {
        SIRM_PAYLOAD_FINAL_TRANSFER1_SIZE
    } else {
        SIRM_PAYLOAD_FINAL_TRANSFER2_SIZE
    }
}

impl StreamRegisters {
    /// The values before any register was read.
    pub open spec fn unread() -> StreamRegisters {
        StreamRegisters {
            maximum_leader_size: 0,
            maximum_trailer_size: 0,
            payload_transfer_size: 0,
            payload_transfer_count: 0,
            payload_final_transfer1_size: 0,
            payload_final_transfer2_size: 0,
        }
    }

    /// The values with `value` for the register that is read as the
    /// `index`th.
    pub open spec fn with_register(self, index: int, value: u32) -> StreamRegisters {
        if index == 0 {
            StreamRegisters { maximum_leader_size: value, ..self }
        } else if index == 1 {
            StreamRegisters { maximum_trailer_size: value, ..self }
        } else if index == 2 {
            StreamRegisters { payload_transfer_size: value, ..self }
        } else if index == 3 {
            StreamRegisters { payload_transfer_count: value, ..self }
        } else if index == 4 {
            StreamRegisters { payload_final_transfer1_size: value, ..self }
        } else {
            StreamRegisters { payload_final_transfer2_size: value, ..self }
        }
    }
}

impl Sirm {
    /// The SIRM of a device, or the error for a device that has none.
    pub fn required(sirm: Option<Sirm>) -> (res: ControlResult<Sirm>)
        ensures
            res == match sirm {
                Some(sirm) => Ok::<Sirm, ControlError>(sirm),
                None => Err::<Sirm, ControlError>(ControlError::InvalidDevice(MSG_NO_SIRM)),
            },
    {
        match sirm {
            Some(sirm) => Ok(sirm),
            None => Err(ControlError::InvalidDevice(MSG_NO_SIRM)),
        }
    }

    /// Reads the maximum size of a leader.
    pub fn maximum_leader_size<Ctrl: DeviceControl + ?Sized>(self, ctrl: &mut Ctrl) -> (res:
        ControlResult<u32>)
        ensures
            reads_u32(old(ctrl), self.sirm_addr, SIRM_MAXIMUM_LEADER_SIZE, res),
    {
        read_u32_register(ctrl, self.sirm_addr, SIRM_MAXIMUM_LEADER_SIZE)
    }

    /// Reads the maximum size of a trailer.
    pub fn maximum_trailer_size<Ctrl: DeviceControl + ?Sized>(self, ctrl: &mut Ctrl) -> (res:
        ControlResult<u32>)
        ensures
            reads_u32(old(ctrl), self.sirm_addr, SIRM_MAXIMUM_TRAILER_SIZE, res),
    {
        read_u32_register(ctrl, self.sirm_addr, SIRM_MAXIMUM_TRAILER_SIZE)
    }

    /// Reads the size of one payload transfer.
    pub fn payload_transfer_size<Ctrl: DeviceControl + ?Sized>(self, ctrl: &mut Ctrl) -> (res:
        ControlResult<u32>)
        ensures
            reads_u32(old(ctrl), self.sirm_addr, SIRM_PAYLOAD_TRANSFER_SIZE, res),
    {
        read_u32_register(ctrl, self.sirm_addr, SIRM_PAYLOAD_TRANSFER_SIZE)
    }

    /// Reads the number of payload transfers.
    pub fn payload_transfer_count<Ctrl: DeviceControl + ?Sized>(self, ctrl: &mut Ctrl) -> (res:
        ControlResult<u32>)
        ensures
            reads_u32(old(ctrl), self.sirm_addr, SIRM_PAYLOAD_TRANSFER_COUNT, res),
    {
        read_u32_register(ctrl, self.sirm_addr, SIRM_PAYLOAD_TRANSFER_COUNT)
    }

    /// Reads the size of the first final payload transfer.
    pub fn payload_final_transfer1_size<Ctrl: DeviceControl + ?Sized>(
        self,
        ctrl: &mut Ctrl,
    ) -> (res: ControlResult<u32>)
        ensures
            reads_u32(old(ctrl), self.sirm_addr, SIRM_PAYLOAD_FINAL_TRANSFER1_SIZE, res),
    {
        read_u32_register(ctrl, self.sirm_addr, SIRM_PAYLOAD_FINAL_TRANSFER1_SIZE)
    }

    /// Reads the size of the second final payload transfer.
    pub fn payload_final_transfer2_size<Ctrl: DeviceControl + ?Sized>(
        self,
        ctrl: &mut Ctrl,
    ) -> (res: ControlResult<u32>)
        ensures
            reads_u32(old(ctrl), self.sirm_addr, SIRM_PAYLOAD_FINAL_TRANSFER2_SIZE, res),
    {
        read_u32_register(ctrl, self.sirm_addr, SIRM_PAYLOAD_FINAL_TRANSFER2_SIZE)
    }
}

} // verus!
