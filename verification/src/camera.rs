//! Cameras, as they are made of the devices that an enumeration found.

use crate::channel::{ControlChannel, ReceiveChannel};
use crate::device_info::DeviceInfo;
use crate::error::{control_error_of, ControlError, ControlResult};
use crate::stream_handle::StreamHandle;
use crate::transport::{TransportError, TransportResult};
use vstd::prelude::*;

verus! {

/// A device that an enumeration found: what it says of itself, and what
/// asking it for its channels gave.
#[derive(Debug, PartialEq, Eq)]
pub struct Device {
    pub device_info: DeviceInfo,
    pub control_channel: TransportResult<ControlChannel>,
    pub stream_channel: TransportResult<Option<ReceiveChannel>>,
}

/// The handle of the control channel of a camera.
#[derive(Clone, Copy, Debug, PartialEq, Eq)]
pub struct ControlHandle {
    pub inner: ControlChannel,
}

impl ControlHandle {
    /// Makes the handle of the control channel of a device. `control_channel`
    /// is what asking the device for its control channel gave.
    pub fn new(control_channel: TransportResult<ControlChannel>) -> (res: ControlResult<Self>)
        ensures
            res == match control_channel {
                Ok(inner) => Ok::<ControlHandle, ControlError>(ControlHandle { inner }),
                Err(e) => Err::<ControlHandle, ControlError>(control_error_of(e)),
            },
    {
        match control_channel {
            Ok(inner) => Ok(Self { inner }),
            Err(e) => Err(ControlError::from(e)),
        }
    }
}

/// What tells cameras apart for a user.
#[derive(Clone, Debug, PartialEq, Eq)]
pub struct CameraInfo {
    /// Vendor name of the camera.
    pub vendor_name: String,
    /// Model name of the camera.
    pub model_name: String,
    /// Serial number of the camera.
    pub serial_number: String,
}

/// A camera: the handles of its two channels and its information.
pub struct Camera<Tx, Rx> {
    pub ctrl: ControlHandle,
    pub strm: StreamHandle<Tx, Rx>,
    pub info: CameraInfo,
}

/// What a camera is made of.
pub ghost struct CameraParts {
    pub control_channel: ControlChannel,
    pub stream_channel: ReceiveChannel,
    pub info: CameraInfo,
}

impl<Tx, Rx> Camera<Tx, Rx> {
    /// The camera is made of `parts` and its stream is idle.
    pub open spec fn is_made_of(&self, parts: CameraParts) -> bool {
        &&& self.ctrl.inner == parts.control_channel
        &&& self.strm.channel() == parts.stream_channel
        &&& self.strm.wf()
        &&& !self.strm.is_running()
        &&& self.info == parts.info
    }
}

/// The camera that a device makes: none where the device has no stream
/// channel, and the error where one of its channels could not be had, that of
/// the control channel first.
pub open spec fn camera_of(device: Device) -> Result<Option<CameraParts>, ControlError> {
    match device.control_channel {
        Err(e) => Err(control_error_of(e)),
        Ok(control_channel) => match device.stream_channel {
            Err(e) => Err(control_error_of(e)),
            Ok(None) => Ok(None),
            Ok(Some(stream_channel)) => Ok(
                Some(
                    CameraParts {
                        control_channel,
                        stream_channel,
                        info: CameraInfo {
                            vendor_name: device.device_info.vendor_name,
                            model_name: device.device_info.model_name,
                            serial_number: device.device_info.serial_number,
                        },
                    },
                ),
            ),
        },
    }
}

/// The cameras that devices make, in the order of the devices, or the error
/// of the first device that gives one.
pub open spec fn cameras_of(devices: Seq<Device>) -> Result<Seq<CameraParts>, ControlError>
    decreases devices.len(),
{
    if devices.len() == 0 {
        Ok(Seq::empty())
    } else {
        match cameras_of(devices.drop_last()) {
            Err(e) => Err(e),
            Ok(cameras) => match camera_of(devices.last()) {
                Err(e) => Err(e),
                Ok(None) => Ok(cameras),
                Ok(Some(camera)) => Ok(cameras.push(camera)),
            },
        }
    }
}

/// Makes the cameras of the devices that an enumeration found.
/// `devices` is what the enumeration gave. A device without stream channel
/// makes no camera; the first failure ends the enumeration.
pub fn enumerate_cameras<Tx, Rx>(devices: TransportResult<Vec<Device>>) -> (res: ControlResult<
    Vec<Camera<Tx, Rx>>,
>)
    ensures
        match devices {
            Err(e) => res matches Err(err) && err == control_error_of(e),
            Ok(devices) => match cameras_of(devices@) {
                Err(e) => res matches Err(err) && err == e,
                Ok(parts) => res matches Ok(cameras) && cameras@.len() == parts.len() && forall|
                    i: int,
                |
                    0 <= i < parts.len() ==> (#[trigger] cameras@[i]).is_made_of(parts[i]),
            },
        },
{
    let found = match devices {
        Ok(found) => found,
        Err(e) => { return Err(ControlError::from(e)); },
    };

    let mut cameras: Vec<Camera<Tx, Rx>> = Vec::new();
    let mut i: usize = 0;
    while i < found.len()
        invariant
            devices == Ok::<Vec<Device>, TransportError>(found),
            i <= found@.len(),
            cameras_of(found@.subrange(0, i as int)) matches Ok(parts) && cameras@.len()
                == parts.len() && forall|k: int|
                0 <= k < parts.len() ==> (#[trigger] cameras@[k]).is_made_of(parts[k]),
        decreases found@.len() - i,
    {
        let ghost seen = found@.subrange(0, i as int);
        let ghost next = found@.subrange(0, i + 1);
        assert(next.drop_last() =~= seen);
        assert(next.last() == found@[i as int]);
        let dev = &found[i];
        let ctrl = match ControlHandle::new(dev.control_channel) {
            Ok(ctrl) => ctrl,
            Err(e) => {
                proof {
                    lemma_error_stays(found@, i + 1);
                }
                return Err(e);
            },
        };
        let strm = match StreamHandle::new(dev.stream_channel) {
            Ok(Some(strm)) => Some(strm),
            Ok(None) => None,
            Err(e) => {
                proof {
                    lemma_error_stays(found@, i + 1);
                }
                return Err(e);
            },
        };
        match strm {
            Some(strm) => {
                let info = CameraInfo {
                    vendor_name: dev.device_info.vendor_name.clone(),
                    model_name: dev.device_info.model_name.clone(),
                    serial_number: dev.device_info.serial_number.clone(),
                };
                cameras.push(Camera { ctrl, strm, info });
            },
            None => {},
        }
        i = i + 1;
    }
    assert(found@.subrange(0, i as int) =~= found@);
    Ok(cameras)
}

/// An error among the first `len` devices is the error of all of them.
pub proof fn lemma_error_stays(devices: Seq<Device>, len: int)
    requires
        0 <= len <= devices.len(),
        cameras_of(devices.subrange(0, len)) is Err,
    ensures
        cameras_of(devices) == cameras_of(devices.subrange(0, len)),
    decreases devices.len(),
{
    if len == devices.len() {
        assert(devices.subrange(0, len) =~= devices);
    } else {
        assert(devices.drop_last().subrange(0, len) =~= devices.subrange(0, len));
        lemma_error_stays(devices.drop_last(), len);
    }
}

} // verus!
