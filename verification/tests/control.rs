use std::time::Duration;

use cameleon::camera::{enumerate_cameras, Camera, CameraInfo, ControlHandle, Device};
use cameleon::channel::{
    ControlChannel, ControlIfaceInfo, ReceiveChannel, ReceiveIfaceInfo,
};
use cameleon::device_info::{BusSpeed, DeviceInfo, Version};
use cameleon::error::{ControlError, ControlResult, StreamError, StreamIoCause};
use cameleon::gentl::{device_by_id, GenTlError};
use cameleon::register_map::{
    read_u32_register, read_u64_register, register_address, text_of_register, Abrm,
    DeviceControl, Sbrm, Sirm, StreamRegisters,
};
use cameleon::stream_handle::{CloseStep, StopOutcome, StreamHandle};
use cameleon::stream_params::StreamParams;
use cameleon::stream_read::Transfer;
use cameleon::streaming_loop::Phase;
use cameleon::transport::{set_halt, LibUsbError, TransportError, UsbRequest};

const ALL_LIBUSB_ERRORS: [LibUsbError; 14] = [
    LibUsbError::Io,
    LibUsbError::InvalidParam,
    LibUsbError::Access,
    LibUsbError::NoDevice,
    LibUsbError::NotFound,
    LibUsbError::Busy,
    LibUsbError::Timeout,
    LibUsbError::Overflow,
    LibUsbError::Pipe,
    LibUsbError::Interrupted,
    LibUsbError::NoMem,
    LibUsbError::NotSupported,
    LibUsbError::BadDescriptor,
    LibUsbError::Other,
];

/// The memory of a device as a list of registers, with a record of what was
/// read.
struct Memory {
    registers: Vec<(u64, Vec<u8>)>,
    reads: Vec<(u64, usize)>,
    fail_at: Option<(u64, ControlError)>,
}

impl Memory {
    fn new() -> Self {
        Self {
            registers: Vec::new(),
            reads: Vec::new(),
            fail_at: None,
        }
    }

    fn with(mut self, address: u64, bytes: &[u8]) -> Self {
        self.registers.push((address, bytes.to_vec()));
        self
    }

    /// A device with its SBRM at 0x10000 and its SIRM at 0x20000.
    fn camera() -> Self {
        Self::new()
            .with(0x01C4, &1u64.to_le_bytes())
            .with(0x01CC, &250u32.to_le_bytes())
            .with(0x01D8, &0x10000u64.to_le_bytes())
            .with(0x10004, &1u64.to_le_bytes())
            .with(0x10020, &0x20000u64.to_le_bytes())
            .with(0x20018, &52u32.to_le_bytes())
            .with(0x2001C, &65536u32.to_le_bytes())
            .with(0x20020, &9u32.to_le_bytes())
            .with(0x20024, &24576u32.to_le_bytes())
            .with(0x20028, &0u32.to_le_bytes())
            .with(0x2002C, &32u32.to_le_bytes())
    }
}

impl DeviceControl for Memory {
    fn read(&mut self, address: u64, buf: &mut [u8]) -> ControlResult<()> {
        self.reads.push((address, buf.len()));
        if let Some((at, error)) = &self.fail_at {
            if *at == address {
                return Err(error.clone());
            }
        }
        match self.registers.iter().find(|(at, _)| *at == address) {
            Some((_, bytes)) if bytes.len() == buf.len() => {
                buf.copy_from_slice(bytes);
                Ok(())
            }
            _ => Err(ControlError::Io(TransportError::InvalidPacket(
                "no such register",
            ))),
        }
    }

    fn write(&mut self, _address: u64, _data: &[u8]) -> ControlResult<()> {
        Err(ControlError::Busy)
    }
}

fn receive_channel() -> ReceiveChannel {
    ReceiveChannel::new(ReceiveIfaceInfo {
        iface_number: 2,
        bulk_in_ep: 0x83,
    })
}

fn control_channel() -> ControlChannel {
    ControlChannel::new(ControlIfaceInfo {
        iface_number: 0,
        bulk_in_ep: 0x81,
        bulk_out_ep: 0x01,
    })
}

fn handle() -> StreamHandle<&'static str, u32> {
    StreamHandle::new(Ok(Some(receive_channel())))
        .unwrap()
        .unwrap()
}

#[test]
fn maximum_payload_size_is_the_sum_of_the_transfers() {
    let params = StreamParams::new(52, 32, 65536, 9, 24576, 0, Duration::from_millis(100));
    assert_eq!(params.maximum_payload_size(), 614400);
    assert_eq!(params.checked_maximum_payload_size(), Some(614400));

    let params = StreamParams::new(1, 2, 3, 5, 7, 11, Duration::ZERO);
    assert_eq!(params.maximum_payload_size(), 3 * 5 + 7 + 11);
    let params = StreamParams::new(1, 2, 0, 5, 0, 0, Duration::ZERO);
    assert_eq!(params.maximum_payload_size(), 0);
    let params = StreamParams::new(0, 0, usize::MAX, 1, 0, 0, Duration::ZERO);
    assert_eq!(params.maximum_payload_size(), usize::MAX);

    // Sizes that leave the address space have no maximum payload size.
    let params = StreamParams::new(0, 0, usize::MAX, 1, 1, 0, Duration::ZERO);
    assert_eq!(params.checked_maximum_payload_size(), None);
    let params = StreamParams::new(0, 0, usize::MAX, 1, 0, 1, Duration::ZERO);
    assert_eq!(params.checked_maximum_payload_size(), None);
    let params = StreamParams::new(0, 0, usize::MAX / 2 + 1, 2, 0, 0, Duration::ZERO);
    assert_eq!(params.checked_maximum_payload_size(), None);
}

#[test]
fn params_keep_what_they_are_made_of() {
    let params = StreamParams::new(1, 2, 3, 4, 5, 6, Duration::from_secs(7));
    assert_eq!(params.leader_size, 1);
    assert_eq!(params.trailer_size, 2);
    assert_eq!(params.payload_size, 3);
    assert_eq!(params.payload_count, 4);
    assert_eq!(params.payload_final1_size, 5);
    assert_eq!(params.payload_final2_size, 6);
    assert_eq!(params.timeout, Duration::from_secs(7));

    let params = StreamParams::default();
    assert_eq!(params.maximum_payload_size(), 0);
    assert_eq!(params.leader_size, 0);
    assert_eq!(params.trailer_size, 0);
    assert_eq!(params.timeout, Duration::ZERO);
}

#[test]
fn params_from_registers() {
    let registers = StreamRegisters {
        maximum_leader_size: 52,
        maximum_trailer_size: 32,
        payload_transfer_size: 65536,
        payload_transfer_count: 9,
        payload_final_transfer1_size: 24576,
        payload_final_transfer2_size: 1,
    };
    let params = StreamParams::from_registers(registers, 250);
    assert_eq!(params.leader_size, 52);
    assert_eq!(params.trailer_size, 32);
    assert_eq!(params.payload_size, 65536);
    assert_eq!(params.payload_count, 9);
    assert_eq!(params.payload_final1_size, 24576);
    assert_eq!(params.payload_final2_size, 1);
    // The response time is in milliseconds.
    assert_eq!(params.timeout, Duration::from_millis(250));
    assert_ne!(params.timeout, Duration::from_nanos(250));
}

#[test]
fn params_from_control() {
    let mut device = Memory::camera();
    let params = StreamParams::from_control(&mut device).unwrap();
    assert_eq!(params.leader_size, 52);
    assert_eq!(params.trailer_size, 32);
    assert_eq!(params.payload_size, 65536);
    assert_eq!(params.payload_count, 9);
    assert_eq!(params.payload_final1_size, 24576);
    assert_eq!(params.payload_final2_size, 0);
    assert_eq!(params.timeout, Duration::from_millis(250));
    assert_eq!(params.maximum_payload_size(), 614400);

    // From the ABRM over the SBRM to the SIRM, then the response time.
    assert_eq!(
        device.reads,
        vec![
            (0x01C4, 8),
            (0x01D8, 8),
            (0x10004, 8),
            (0x10020, 8),
            (0x20018, 4),
            (0x2002C, 4),
            (0x2001C, 4),
            (0x20020, 4),
            (0x20024, 4),
            (0x20028, 4),
            (0x01CC, 4),
        ]
    );
}

#[test]
fn params_of_a_device_without_sirm() {
    let mut device = Memory::camera();
    device.registers[3] = (0x10004, 0u64.to_le_bytes().to_vec());
    assert_eq!(
        StreamParams::from_control(&mut device).err(),
        Some(ControlError::InvalidDevice("the GEV device doesn't have `SIRM`"))
    );
    // The device is asked for nothing behind its capability.
    assert_eq!(device.reads.last(), Some(&(0x10004, 8)));
}

#[test]
fn params_of_a_device_that_fails() {
    for (address, _) in Memory::camera().registers {
        let mut device = Memory::camera();
        device.fail_at = Some((address, ControlError::Timeout));
        assert_eq!(
            StreamParams::from_control(&mut device).err(),
            Some(ControlError::Timeout)
        );
        // The failure ends the walk.
        assert_eq!(device.reads.last().map(|read| read.0), Some(address));
    }
}

#[test]
fn register_blocks() {
    let mut device = Memory::camera();
    let abrm = Abrm::new(&mut device).unwrap();
    assert_eq!(abrm.device_capability, 1);
    assert!(abrm.is_user_defined_name_supported());
    assert_eq!(abrm.maximum_device_response_time(&mut device), Ok(250));
    let sbrm = abrm.sbrm(&mut device).unwrap();
    assert_eq!(
        sbrm,
        Sbrm {
            sbrm_addr: 0x10000,
            capability: 1
        }
    );
    assert!(sbrm.is_sirm_available());
    let sirm = sbrm.sirm(&mut device).unwrap().unwrap();
    assert_eq!(sirm, Sirm { sirm_addr: 0x20000 });
    assert_eq!(sirm.maximum_leader_size(&mut device), Ok(52));
    assert_eq!(sirm.maximum_trailer_size(&mut device), Ok(32));
    assert_eq!(sirm.payload_transfer_size(&mut device), Ok(65536));
    assert_eq!(sirm.payload_transfer_count(&mut device), Ok(9));
    assert_eq!(sirm.payload_final_transfer1_size(&mut device), Ok(24576));
    assert_eq!(sirm.payload_final_transfer2_size(&mut device), Ok(0));

    let without = Sbrm {
        sbrm_addr: 0x10000,
        capability: 0xFFFF_FFFE,
    };
    assert!(!without.is_sirm_available());
    let reads = device.reads.len();
    assert_eq!(without.sirm(&mut device), Ok(None));
    assert_eq!(device.reads.len(), reads);

    assert_eq!(Sirm::required(Some(sirm)), Ok(sirm));
    assert_eq!(
        Sirm::required(None),
        Err(ControlError::InvalidDevice("the GEV device doesn't have `SIRM`"))
    );
    assert!(!Abrm { device_capability: 2 }.is_user_defined_name_supported());
}

#[test]
fn text_registers() {
    assert_eq!(text_of_register(b"SN-0042\0\0\0"), Ok("SN-0042".to_string()));
    // The text ends at the first 0.
    assert_eq!(text_of_register(b"SN\0-0042\0"), Ok("SN".to_string()));
    // A text may fill its register.
    assert_eq!(text_of_register(b"SN-0042"), Ok("SN-0042".to_string()));
    assert_eq!(text_of_register(b""), Ok(String::new()));
    assert_eq!(text_of_register(b"\0abc"), Ok(String::new()));
    assert_eq!(
        text_of_register("Kamera №7\0".as_bytes()),
        Ok("Kamera №7".to_string())
    );
    let no_text = ControlError::InvalidDevice("text register is not encoded in UTF-8");
    assert_eq!(text_of_register(&[0x41, 0xFF, 0x00]), Err(no_text.clone()));
    assert_eq!(text_of_register(&[0xC3]), Err(no_text));
    // What stands behind the end of the text is not looked at.
    assert_eq!(text_of_register(&[0x41, 0x00, 0xFF]), Ok("A".to_string()));

    let mut serial = [0u8; 64];
    serial[..5].copy_from_slice(b"12345");
    let mut device = Memory::camera().with(0x0144, &serial);
    let abrm = Abrm::new(&mut device).unwrap();
    assert_eq!(abrm.serial_number(&mut device), Ok("12345".to_string()));
    assert_eq!(device.reads.last(), Some(&(0x0144, 64)));
    device.fail_at = Some((0x0144, ControlError::Busy));
    assert_eq!(abrm.serial_number(&mut device), Err(ControlError::Busy));
}

#[test]
fn register_addresses() {
    assert_eq!(register_address(0x10000, 0x20), Ok(0x10020));
    assert_eq!(register_address(u64::MAX - 4, 4), Ok(u64::MAX));
    let out_of_range = ControlError::InvalidDevice("register address is out of range");
    assert_eq!(register_address(u64::MAX - 3, 4), Err(out_of_range.clone()));

    let mut device = Memory::camera();
    assert_eq!(
        read_u32_register(&mut device, u64::MAX, 0x18),
        Err(out_of_range.clone())
    );
    assert_eq!(
        read_u64_register(&mut device, u64::MAX, 0x20),
        Err(out_of_range.clone())
    );
    assert_eq!(
        Sbrm::new(&mut device, u64::MAX).err(),
        Some(out_of_range)
    );
    assert!(device.reads.is_empty());
    assert_eq!(read_u32_register(&mut device, 0x20000, 0x1C), Ok(65536));
    assert_eq!(read_u64_register(&mut device, 0x10000, 0x20), Ok(0x20000));
    assert_eq!(device.write(0, &[]), Err(ControlError::Busy));
}

#[test]
fn control_errors_of_transport_failures() {
    for error in ALL_LIBUSB_ERRORS {
        let transport = TransportError::LibUsb(error);
        let expected = match error {
            LibUsbError::Busy => ControlError::Busy,
            LibUsbError::NoDevice | LibUsbError::NotFound => ControlError::Disconnected,
            LibUsbError::Timeout => ControlError::Timeout,
            _ => ControlError::Io(transport),
        };
        assert_eq!(ControlError::from(transport), expected);
    }
    for transport in [
        TransportError::BufferIo("short"),
        TransportError::InvalidPacket("broken"),
    ] {
        assert_eq!(ControlError::from(transport), ControlError::Io(transport));
    }
    assert_eq!(
        ControlError::from(TransportError::InvalidDevice),
        ControlError::InvalidDevice("invalid device")
    );
}

#[test]
fn stream_errors_of_transport_failures() {
    for error in ALL_LIBUSB_ERRORS {
        let transport = TransportError::LibUsb(error);
        let expected = match error {
            LibUsbError::NoDevice | LibUsbError::NotFound => StreamError::Disconnected,
            LibUsbError::Timeout => StreamError::Timeout,
            _ => StreamError::Io(StreamIoCause::Transport(transport)),
        };
        assert_eq!(StreamError::from(transport), expected);
    }
    // A busy device is a failure of input and output on the stream.
    assert_eq!(
        StreamError::from(TransportError::LibUsb(LibUsbError::Busy)),
        StreamError::Io(StreamIoCause::Transport(TransportError::LibUsb(
            LibUsbError::Busy
        )))
    );
    for transport in [
        TransportError::BufferIo("short"),
        TransportError::InvalidPacket("broken"),
    ] {
        assert_eq!(
            StreamError::from(transport),
            StreamError::Io(StreamIoCause::Transport(transport))
        );
    }
    // An invalid device is one on both planes.
    assert_eq!(
        StreamError::from(TransportError::InvalidDevice),
        StreamError::InvalidDevice("invalid device")
    );
}

#[test]
fn planes_agree_on_all_but_a_busy_device() {
    let mut failures: Vec<TransportError> = ALL_LIBUSB_ERRORS
        .iter()
        .map(|error| TransportError::LibUsb(*error))
        .collect();
    failures.push(TransportError::BufferIo("short"));
    failures.push(TransportError::InvalidPacket("broken"));
    failures.push(TransportError::InvalidDevice);
    for failure in failures {
        let same = match (ControlError::from(failure), StreamError::from(failure)) {
            (ControlError::Io(_), StreamError::Io(_)) => true,
            (ControlError::Disconnected, StreamError::Disconnected) => true,
            (ControlError::Timeout, StreamError::Timeout) => true,
            (ControlError::InvalidDevice(control), StreamError::InvalidDevice(stream)) => {
                control == stream
            }
            _ => false,
        };
        assert_eq!(same, failure != TransportError::LibUsb(LibUsbError::Busy));
    }
}

#[test]
fn fatal_stream_errors() {
    assert!(StreamError::Disconnected.is_fatal());
    assert!(
        StreamError::Io(StreamIoCause::Transport(TransportError::BufferIo("short"))).is_fatal()
    );
    assert!(!StreamError::InvalidDevice("invalid device").is_fatal());
    assert!(StreamError::Io(StreamIoCause::Setup(ControlError::Busy)).is_fatal());
    assert!(!StreamError::Timeout.is_fatal());
    assert!(!StreamError::BufferTooSmall.is_fatal());
    assert!(!StreamError::InStreaming.is_fatal());
    assert!(!StreamError::InvalidPayload("x".into()).is_fatal());
    assert!(!StreamError::Poisoned("x".into()).is_fatal());
}

#[test]
fn descriptions_of_transport_failures() {
    assert_eq!(
        TransportError::LibUsb(LibUsbError::Pipe).describe(),
        "libusb error: Pipe"
    );
    assert_eq!(
        TransportError::BufferIo("failed to fill whole buffer").describe(),
        "packet is broken: failed to fill whole buffer"
    );
    assert_eq!(
        TransportError::InvalidPacket("invalid prefix magic").describe(),
        "packet is invalid: invalid prefix magic"
    );
    assert_eq!(
        TransportError::InvalidDevice.describe(),
        "device doesn't follow the standard"
    );
    let names: Vec<&str> = ALL_LIBUSB_ERRORS.iter().map(|error| error.name()).collect();
    assert_eq!(
        names,
        [
            "Io",
            "InvalidParam",
            "Access",
            "NoDevice",
            "NotFound",
            "Busy",
            "Timeout",
            "Overflow",
            "Pipe",
            "Interrupted",
            "NoMem",
            "NotSupported",
            "BadDescriptor",
            "Other"
        ]
    );
}

#[test]
fn control_channel_opens_and_closes() {
    let mut channel = control_channel();
    assert!(!channel.is_opened());
    assert_eq!(channel.close(), vec![]);
    assert_eq!(
        channel.open(),
        vec![UsbRequest::ClaimInterface { iface_number: 0 }]
    );

    // An interface that cannot be claimed leaves the channel closed.
    let busy = TransportError::LibUsb(LibUsbError::Busy);
    assert_eq!(channel.finish_open(Err(busy)), Err(busy));
    assert!(!channel.is_opened());

    assert_eq!(channel.finish_open(Ok(())), Ok(()));
    assert!(channel.is_opened());
    // Opening twice asks for nothing.
    assert_eq!(channel.open(), vec![]);
    assert_eq!(channel.finish_open(Ok(())), Ok(()));
    assert!(channel.is_opened());

    assert_eq!(
        channel.close(),
        vec![UsbRequest::ReleaseInterface { iface_number: 0 }]
    );
    // An interface that cannot be released leaves the channel open.
    assert_eq!(channel.finish_close(Err(busy)), Err(busy));
    assert!(channel.is_opened());
    assert_eq!(channel.finish_close(Ok(())), Ok(()));
    assert!(!channel.is_opened());
    assert_eq!(channel.close(), vec![]);
    assert_eq!(channel.finish_close(Ok(())), Ok(()));
    assert!(!channel.is_opened());
}

#[test]
fn control_channel_transfers() {
    let channel = control_channel();
    let timeout = Duration::from_millis(100);
    assert_eq!(
        channel.send(12, timeout),
        UsbRequest::WriteBulk {
            endpoint: 0x01,
            len: 12,
            timeout
        }
    );
    assert_eq!(
        channel.recv(1024, timeout),
        UsbRequest::ReadBulk {
            endpoint: 0x81,
            len: 1024,
            timeout
        }
    );
    let halt = |endpoint: u16| UsbRequest::WriteControl {
        request_type: 0x02,
        request: 0x03,
        value: 0x00,
        index: endpoint,
        timeout,
    };
    assert_eq!(channel.set_halt(timeout), vec![halt(0x81), halt(0x01)]);
    assert_eq!(
        channel.clear_halt(),
        vec![
            UsbRequest::ClearHalt { endpoint: 0x81 },
            UsbRequest::ClearHalt { endpoint: 0x01 }
        ]
    );
}

#[test]
fn halt_request_is_a_standard_request_to_an_endpoint() {
    let request = set_halt(0x83, Duration::from_secs(1));
    assert_eq!(
        request,
        UsbRequest::WriteControl {
            request_type: rusb::request_type(
                rusb::Direction::Out,
                rusb::RequestType::Standard,
                rusb::Recipient::Endpoint
            ),
            request: 0x03,
            value: 0,
            index: 0x83,
            timeout: Duration::from_secs(1),
        }
    );
    match request {
        UsbRequest::WriteControl { request_type, .. } => assert_eq!(request_type, 0x02),
        other => panic!("unexpected request {:?}", other),
    }
}

#[test]
fn receive_channel_opens_and_closes() {
    let mut channel = receive_channel();
    assert!(!channel.is_opened());
    assert_eq!(channel.close(), vec![]);
    assert_eq!(
        channel.open(),
        vec![UsbRequest::ClaimInterface { iface_number: 2 }]
    );
    let gone = TransportError::LibUsb(LibUsbError::NoDevice);
    assert_eq!(channel.finish_open(Err(gone)), Err(gone));
    assert!(!channel.is_opened());
    assert_eq!(channel.finish_open(Ok(())), Ok(()));
    assert!(channel.is_opened());
    assert_eq!(channel.open(), vec![]);
    assert_eq!(
        channel.close(),
        vec![UsbRequest::ReleaseInterface { iface_number: 2 }]
    );
    assert_eq!(channel.finish_close(Err(gone)), Err(gone));
    assert!(channel.is_opened());
    assert_eq!(channel.finish_close(Ok(())), Ok(()));
    assert!(!channel.is_opened());

    let timeout = Duration::from_millis(5);
    assert_eq!(
        channel.recv(64, timeout),
        UsbRequest::ReadBulk {
            endpoint: 0x83,
            len: 64,
            timeout
        }
    );
    assert_eq!(
        channel.set_halt(timeout),
        vec![UsbRequest::WriteControl {
            request_type: 0x02,
            request: 0x03,
            value: 0x00,
            index: 0x83,
            timeout,
        }]
    );
    assert_eq!(
        channel.clear_halt(),
        vec![UsbRequest::ClearHalt { endpoint: 0x83 }]
    );
}

#[test]
fn handle_of_a_device() {
    assert!(StreamHandle::<(), ()>::new(Ok(None)).unwrap().is_none());
    assert_eq!(
        StreamHandle::<(), ()>::new(Err(TransportError::LibUsb(LibUsbError::Busy))).err(),
        Some(ControlError::Busy)
    );
    let handle = handle();
    assert!(!handle.is_loop_running());
    assert_eq!(handle.inner(), &receive_channel());
    assert_eq!(handle.params().maximum_payload_size(), 0);
}

#[test]
fn loop_runs_between_start_and_stop() {
    let mut handle = handle();
    let mut device = Memory::camera();
    assert!(!handle.is_loop_running());

    let worker = handle
        .start_streaming_loop(&mut device, "cancel", 17)
        .unwrap();
    assert!(handle.is_loop_running());
    assert_eq!(worker.phase(), Phase::Boundary);
    // The parameters were discovered anew.
    assert_eq!(handle.params().maximum_payload_size(), 614400);

    assert_eq!(handle.stop_streaming_loop(), Some(("cancel", 17)));
    assert!(!handle.is_loop_running());
    // Stopping a loop that does not run asks for nothing.
    assert_eq!(handle.stop_streaming_loop(), None);
    assert!(!handle.is_loop_running());

    handle.start_streaming_loop(&mut device, "again", 18).unwrap();
    assert!(handle.is_loop_running());
    match handle.close() {
        CloseStep::StopLoop {
            cancellation_tx,
            completion_rx,
        } => {
            assert_eq!(cancellation_tx, "again");
            assert_eq!(completion_rx, 18);
        }
        other => panic!("unexpected step {:?}", other),
    }
    assert!(!handle.is_loop_running());
}

#[test]
fn start_is_refused_while_the_loop_runs() {
    let mut handle = handle();
    let mut device = Memory::camera();
    handle.start_streaming_loop(&mut device, "first", 1).unwrap();

    let mut other = Memory::camera();
    other.registers[7] = (0x20020, 3u32.to_le_bytes().to_vec());
    assert_eq!(
        handle.start_streaming_loop(&mut other, "second", 2).err(),
        Some(StreamError::InStreaming)
    );
    // Nothing has changed: the device was not asked, the parameters of the
    // handle are those of the loop that runs, and so are its signals.
    assert!(other.reads.is_empty());
    assert!(handle.is_loop_running());
    assert_eq!(handle.params().payload_count, 9);

    // The start is refused whatever the device would answer.
    let mut failing = Memory::camera();
    failing.fail_at = Some((0x01C4, ControlError::Timeout));
    assert_eq!(
        handle.start_streaming_loop(&mut failing, "third", 3).err(),
        Some(StreamError::InStreaming)
    );
    assert!(failing.reads.is_empty());
    assert_eq!(
        handle
            .start_with(Err(ControlError::Disconnected), "fourth", 4)
            .err(),
        Some(StreamError::InStreaming)
    );
    let params = StreamParams::new(1, 2, 3, 4, 5, 6, Duration::ZERO);
    assert_eq!(
        handle.start_with(Ok(params), "fifth", 5).err(),
        Some(StreamError::InStreaming)
    );
    assert!(handle.is_loop_running());
    assert_eq!(handle.params().payload_count, 9);
    assert_eq!(handle.params().timeout, Duration::from_millis(250));
    assert_eq!(handle.stop_streaming_loop(), Some(("first", 1)));
}

#[test]
fn start_fails_where_discovery_fails() {
    let mut handle = handle();
    handle.params_mut().leader_size = 99;

    let mut device = Memory::camera();
    device.fail_at = Some((0x2001C, ControlError::Timeout));
    assert_eq!(
        handle.start_streaming_loop(&mut device, "tx", 1).err(),
        Some(StreamError::Io(StreamIoCause::Setup(ControlError::Timeout)))
    );
    assert!(!handle.is_loop_running());
    assert_eq!(handle.params().leader_size, 99);

    assert_eq!(
        handle
            .start_with(Err(ControlError::Disconnected), "tx", 1)
            .err(),
        Some(StreamError::Io(StreamIoCause::Setup(
            ControlError::Disconnected
        )))
    );
    assert!(!handle.is_loop_running());

    // A device without SIRM cannot stream.
    let mut device = Memory::camera();
    device.registers[3] = (0x10004, 0u64.to_le_bytes().to_vec());
    assert_eq!(
        handle.start_streaming_loop(&mut device, "tx", 1).err(),
        Some(StreamError::Io(StreamIoCause::Setup(
            ControlError::InvalidDevice("the GEV device doesn't have `SIRM`")
        )))
    );

    // Parameters that no buffer can hold.
    let params = StreamParams::new(0, 0, usize::MAX, 2, 0, 0, Duration::ZERO);
    assert_eq!(
        handle.start_with(Ok(params), "tx", 1).err(),
        Some(StreamError::Io(StreamIoCause::Setup(
            ControlError::InvalidDevice("maximum payload size exceeds the address space")
        )))
    );
    assert!(!handle.is_loop_running());
    assert_eq!(handle.params().payload_size, usize::MAX);
}

#[test]
fn reads_by_hand_are_refused_while_the_loop_runs() {
    let mut handle = handle();
    let mut device = Memory::camera();

    handle.start_streaming_loop(&mut device, "tx", 1).unwrap();
    assert_eq!(handle.read_leader(1024), Err(StreamError::InStreaming));
    assert_eq!(handle.read_payload(614400), Err(StreamError::InStreaming));
    assert_eq!(handle.read_trailer(1024), Err(StreamError::InStreaming));
    assert_eq!(handle.read_leader(0), Err(StreamError::InStreaming));

    handle.stop_streaming_loop();
    let timeout = Duration::from_millis(250);
    assert_eq!(
        handle.read_leader(1024),
        Ok(Some(UsbRequest::ReadBulk {
            endpoint: 0x83,
            len: 52,
            timeout
        }))
    );
    assert_eq!(
        handle.read_trailer(32),
        Ok(Some(UsbRequest::ReadBulk {
            endpoint: 0x83,
            len: 32,
            timeout
        }))
    );
    assert_eq!(handle.read_leader(51), Err(StreamError::BufferTooSmall));
    assert_eq!(handle.read_trailer(31), Err(StreamError::BufferTooSmall));
    assert_eq!(handle.read_payload(614399), Err(StreamError::BufferTooSmall));
    let transfers = handle.read_payload(614400).unwrap();
    assert_eq!(transfers.len(), 10);
    assert_eq!(transfers[0], Transfer { offset: 0, len: 65536 });
    assert_eq!(
        transfers[9],
        Transfer {
            offset: 589824,
            len: 24576
        }
    );
}

#[test]
fn params_of_the_handle_size_the_reads_by_hand() {
    let mut handle = handle();
    assert_eq!(handle.read_leader(0), Ok(None));
    *handle.params_mut() = StreamParams::new(8, 4, 16, 1, 0, 0, Duration::from_millis(3));
    assert_eq!(handle.params().leader_size, 8);
    assert_eq!(
        handle.read_leader(8),
        Ok(Some(UsbRequest::ReadBulk {
            endpoint: 0x83,
            len: 8,
            timeout: Duration::from_millis(3)
        }))
    );
    assert_eq!(
        handle.read_payload(16),
        Ok(vec![Transfer { offset: 0, len: 16 }])
    );
}

#[test]
fn handle_opens_and_closes() {
    let mut handle = handle();
    assert_eq!(
        handle.open(),
        vec![UsbRequest::ClaimInterface { iface_number: 2 }]
    );
    assert_eq!(
        handle.finish_open(Err(TransportError::LibUsb(LibUsbError::NoDevice))),
        Err(StreamError::Disconnected)
    );
    assert!(!handle.inner().is_opened());
    assert_eq!(handle.finish_open(Ok(())), Ok(()));
    assert!(handle.inner().is_opened());
    assert_eq!(handle.open(), vec![]);

    match handle.close() {
        CloseStep::Release(plan) => assert_eq!(
            plan,
            vec![UsbRequest::ReleaseInterface { iface_number: 2 }]
        ),
        other => panic!("unexpected step {:?}", other),
    }
    assert_eq!(
        handle.finish_close(Err(TransportError::LibUsb(LibUsbError::Io))),
        Err(StreamError::Io(StreamIoCause::Transport(
            TransportError::LibUsb(LibUsbError::Io)
        )))
    );
    assert!(handle.inner().is_opened());
    assert_eq!(handle.finish_close(Ok(())), Ok(()));
    assert!(!handle.inner().is_opened());
    match handle.close() {
        CloseStep::Release(plan) => assert!(plan.is_empty()),
        other => panic!("unexpected step {:?}", other),
    }
}

#[test]
fn closing_stops_the_loop_first() {
    let mut handle = handle();
    let mut device = Memory::camera();
    handle.finish_open(Ok(())).unwrap();
    handle.start_streaming_loop(&mut device, "tx", 1).unwrap();

    assert!(matches!(handle.close(), CloseStep::StopLoop { .. }));
    assert!(!handle.is_loop_running());
    assert!(handle.inner().is_opened());
    match handle.close() {
        CloseStep::Release(plan) => assert_eq!(plan.len(), 1),
        other => panic!("unexpected step {:?}", other),
    }
}

#[test]
fn outcomes_of_stopping() {
    type Handle = StreamHandle<(), ()>;
    assert_eq!(Handle::stopped(StopOutcome::Completed), Ok(()));
    // A loop that had ended before it could be told to end was stopped.
    assert_eq!(Handle::stopped(StopOutcome::WorkerGone), Ok(()));
    assert_eq!(
        Handle::stopped(StopOutcome::CompletionLost("oneshot canceled".into())),
        Err(StreamError::Poisoned("oneshot canceled".into()))
    );
}

fn device_info(serial_number: &str) -> DeviceInfo {
    DeviceInfo {
        gencp_version: Version::new(1, 3, 0),
        gev_version: Version::new(1, 0, 1),
        guid: "28AC00000001".into(),
        vendor_name: "Vendor".into(),
        model_name: "Model".into(),
        family_name: Some("Family".into()),
        device_version: "V1".into(),
        manufacturer_info: "Info".into(),
        serial_number: serial_number.into(),
        user_defined_name: None,
        supported_speed: BusSpeed::SuperSpeed,
    }
}

#[test]
fn text_of_device_information() {
    assert_eq!(
        device_info("SN-0042").to_string(),
        "### Device Information ###\n\
         GenCP Version: 1.3.0\n\
         GEV Version: 1.0.1\n\
         GUID: 28AC00000001\n\
         Vendor Name: Vendor\n\
         Model Name: Model\n\
         Family Name: Family\n\
         Manufacturer Information: Info\n\
         Serial Number: SN-0042\n\
         User Defined Name: N/A\n\
         Supported Speed: SuperSpeed"
    );

    let mut info = device_info("1");
    info.family_name = None;
    info.user_defined_name = Some("mine".into());
    info.supported_speed = BusSpeed::SuperSpeedPlus;
    let text = info.to_string();
    assert!(text.contains("Family Name: N/A\n"));
    assert!(text.contains("User Defined Name: mine\n"));
    assert!(text.ends_with("Supported Speed: SuperSpeedPlus"));
    assert!(!text.contains("V1"));
}

#[test]
fn text_of_versions() {
    assert_eq!(Version::new(1, 2, 3).to_string(), "1.2.3");
    assert_eq!(Version::new(0, 0, 0).to_string(), "0.0.0");
    assert_eq!(Version::new(10, 200, 3000).to_string(), "10.200.3000");
    assert_eq!(
        Version::new(u64::MAX, 0, 7).to_string(),
        "18446744073709551615.0.7"
    );
    assert_eq!(
        Version::new(3, 1, 4).to_string(),
        semver::Version::new(3, 1, 4).to_string()
    );
    let speeds = [
        BusSpeed::LowSpeed,
        BusSpeed::FullSpeed,
        BusSpeed::HighSpeed,
        BusSpeed::SuperSpeed,
        BusSpeed::SuperSpeedPlus,
    ];
    for speed in speeds {
        assert_eq!(speed.name(), format!("{:?}", speed));
    }
}

fn device(
    serial_number: &str,
    control_channel: Result<ControlChannel, TransportError>,
    stream_channel: Result<Option<ReceiveChannel>, TransportError>,
) -> Device {
    Device {
        device_info: device_info(serial_number),
        control_channel,
        stream_channel,
    }
}

#[test]
fn cameras_of_devices() {
    let devices = vec![
        device("A", Ok(control_channel()), Ok(Some(receive_channel()))),
        device("B", Ok(control_channel()), Ok(None)),
        device("C", Ok(control_channel()), Ok(Some(receive_channel()))),
    ];
    let cameras: Vec<Camera<(), ()>> = enumerate_cameras(Ok(devices)).unwrap();
    // The device without stream channel makes no camera.
    assert_eq!(cameras.len(), 2);
    assert_eq!(
        cameras[0].info,
        CameraInfo {
            vendor_name: "Vendor".into(),
            model_name: "Model".into(),
            serial_number: "A".into(),
        }
    );
    assert_eq!(cameras[1].info.serial_number, "C");
    assert_eq!(cameras[0].ctrl, ControlHandle { inner: control_channel() });
    assert_eq!(cameras[0].strm.inner(), &receive_channel());
    assert!(!cameras[0].strm.is_loop_running());

    let none: Vec<Camera<(), ()>> = enumerate_cameras(Ok(vec![])).unwrap();
    assert!(none.is_empty());
}

#[test]
fn enumeration_ends_at_the_first_failure() {
    let busy = TransportError::LibUsb(LibUsbError::Busy);
    let gone = TransportError::LibUsb(LibUsbError::NoDevice);

    let failed = enumerate_cameras::<(), ()>(Err(gone));
    assert_eq!(failed.err(), Some(ControlError::Disconnected));

    let devices = vec![
        device("A", Ok(control_channel()), Ok(Some(receive_channel()))),
        device("B", Ok(control_channel()), Err(busy)),
        device("C", Err(gone), Ok(None)),
    ];
    assert_eq!(
        enumerate_cameras::<(), ()>(Ok(devices)).err(),
        Some(ControlError::Busy)
    );

    // The control channel is asked for before the stream channel.
    let devices = vec![device("A", Err(gone), Err(busy))];
    assert_eq!(
        enumerate_cameras::<(), ()>(Ok(devices)).err(),
        Some(ControlError::Disconnected)
    );
    assert_eq!(
        ControlHandle::new(Err(TransportError::InvalidDevice)),
        Err(ControlError::InvalidDevice("invalid device"))
    );
}

#[test]
fn device_is_found_by_its_id() {
    let ids: Vec<String> = vec!["cam0".into(), "cam1".into(), "cam1".into(), "".into()];
    assert_eq!(device_by_id(&ids, "cam0"), Ok(0));
    assert_eq!(device_by_id(&ids, "cam1"), Ok(1));
    assert_eq!(device_by_id(&ids, ""), Ok(3));
    assert_eq!(
        device_by_id(&ids, "cam"),
        Err(GenTlError::InvalidId("cam".into()))
    );
    assert_eq!(
        device_by_id(&[], "cam0"),
        Err(GenTlError::InvalidId("cam0".into()))
    );
}
