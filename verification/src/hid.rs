use vstd::prelude::*;

use crate::protocol::ProtocolError;
use crate::protocol::firmware_chars;
use crate::protocol::firmware_string;
use crate::protocol::info_frame;
use crate::text::fallback_string;
use crate::text::unknown_string;

pub use crate::protocol::DUCKYPAD_TO_PC_HID_BUF_SIZE;
pub use crate::protocol::PC_TO_DUCKYPAD_HID_BUF_SIZE;

verus! {

#[verifier::external_type_specification]
#[verifier::external_body]
pub struct ExHidApi(hidapi::HidApi);

#[verifier::external_type_specification]
#[verifier::external_body]
pub struct ExHidDevice(hidapi::HidDevice);

#[verifier::external_type_specification]
#[verifier::external_body]
pub struct ExHidError(hidapi::HidError);

/// The duckypad's vendor number.
pub const VENDOR_ID: u16 = 0x0483;

/// The duckypad's product number.
pub const PRODUCT_ID: u16 = 0xd11c;

/// The usage page of the duckypad interface the daemon talks to.
pub const USAGE_PAGE: u16 = 0x0001;

/// The usage code of the duckypad interface the daemon talks to.
pub const USAGE: u16 = 0x003a;

/// How long one non-blocking read attempt waits for the device.
pub const READ_POLL_INTERVAL_MS: i32 = 10;

/// How many read attempts make up the 5-second reply ceiling.
pub const READ_POLL_ATTEMPTS: usize = 500;

/// The identifying numbers of one attached HID interface.
#[derive(Clone, Copy, PartialEq, Eq, Structural, Debug)]
pub struct DeviceIds {
    pub vendor_id: u16,
    pub product_id: u16,
    pub usage_page: u16,
    pub usage: u16,
}

/// Diagnostic information about the connected duckypad; each field falls
/// back to "unknown" when unavailable.
pub struct DuckyPadInfo {
    pub model: String,
    pub serial: String,
    pub firmware: String,
}

/// An interface with exactly the duckypad's identifying numbers.
pub open spec fn is_duckypad(ids: DeviceIds) -> bool {
    &&& ids.vendor_id == VENDOR_ID
    &&& ids.product_id == PRODUCT_ID
    &&& ids.usage_page == USAGE_PAGE
    &&& ids.usage == USAGE
}

/// Relies on hidapi's HidApi::device_list: yields the identifying numbers
/// of each attached HID interface, in enumeration order.
#[verifier::external_body]
fn list_device_ids(api: &hidapi::HidApi) -> (r: Vec<DeviceIds>) {
    api.device_list().map(
        |d| DeviceIds {
            vendor_id: d.vendor_id(),
            product_id: d.product_id(),
            usage_page: d.usage_page(),
            usage: d.usage(),
        },
    ).collect()
}

/// Relies on HidApi::device_list and HidApi::open_path: opens the device
/// at the given enumeration position, when it exists and opening succeeds.
/// One wrapper holds both calls because the platform path that links them
/// cannot cross this boundary.
#[verifier::external_body]
fn open_nth(api: &hidapi::HidApi, index: usize) -> (r: Option<hidapi::HidDevice>) {
    api.device_list().nth(index).and_then(|d| api.open_path(d.path()).ok())
}

/// Relies on HidDevice::set_blocking_mode.
#[verifier::external_body]
fn set_blocking(device: &hidapi::HidDevice, blocking: bool) -> (r: Result<(), hidapi::HidError>) {
    device.set_blocking_mode(blocking)
}

/// Relies on HidDevice::write: sends the bytes as one output report and
/// returns how many were accepted.
#[verifier::external_body]
fn write_report(device: &hidapi::HidDevice, buf: &Vec<u8>) -> (r: Result<usize, hidapi::HidError>) {
    device.write(buf.as_slice())
}

/// Relies on HidDevice::read_timeout: waits at most `timeout_ms`
/// milliseconds for an input report and fills in at most `buf.len()` bytes
/// of it, returning how many arrived (0 when none did before the timeout).
#[verifier::external_body]
fn read_report(device: &hidapi::HidDevice, buf: &mut Vec<u8>, timeout_ms: i32) -> (r: Result<
    usize,
    hidapi::HidError,
>)
    ensures
        final(buf)@.len() == old(buf)@.len(),
        (r matches Ok(n) ==> n <= final(buf)@.len()),
{
    device.read_timeout(buf.as_mut_slice(), timeout_ms)
}

/// Relies on HidDevice::get_product_string.
#[verifier::external_body]
fn product_string(device: &hidapi::HidDevice) -> (r: Result<Option<String>, hidapi::HidError>) {
    device.get_product_string()
}

/// Relies on HidDevice::get_serial_number_string.
#[verifier::external_body]
fn serial_number_string(device: &hidapi::HidDevice) -> (r: Result<
    Option<String>,
    hidapi::HidError,
>) {
    device.get_serial_number_string()
}

/// The position of the first listed interface with the duckypad's
/// identity, if any is attached.
pub fn find_duckypad(devices: &Vec<DeviceIds>) -> (r: Option<usize>)
    ensures
        (match r {
            Some(i) => i < devices@.len() && is_duckypad(devices@[i as int]) && (forall|j: int|
                0 <= j < i ==> !is_duckypad(#[trigger] devices@[j])),
            None => forall|j: int| 0 <= j < devices@.len() ==> !is_duckypad(#[trigger] devices@[j]),
        }),
{
    let n = devices.len();
    let mut i: usize = 0;
    while i < n
        invariant
            i <= n,
            n == devices@.len(),
            forall|j: int| 0 <= j < i ==> !is_duckypad(#[trigger] devices@[j]),
        decreases n - i,
    {
        let d = &devices[i];
        if d.vendor_id == VENDOR_ID && d.product_id == PRODUCT_ID && d.usage_page == USAGE_PAGE
            && d.usage == USAGE {
            return Some(i);
        }
        i = i + 1;
    }
    None
}

/// Scans the attached HID interfaces for the duckypad's vendor, product,
/// usage page and usage numbers, opens the first match and puts it into
/// non-blocking mode. `DeviceNotFound` when no interface matches (expected
/// while the device is unplugged, and retryable); `TransportIo` when
/// opening or configuring the handle fails.
pub fn init(api: &hidapi::HidApi) -> (r: Result<hidapi::HidDevice, ProtocolError>)
    ensures
        (r matches Err(e) ==> (e == ProtocolError::DeviceNotFound || e
            == ProtocolError::TransportIo)),
{
    let ids = list_device_ids(api);
    match find_duckypad(&ids) {
        None => Err(ProtocolError::DeviceNotFound),
        Some(index) => match open_nth(api, index) {
            None => Err(ProtocolError::TransportIo),
            Some(device) => match set_blocking(&device, false) {
                Ok(_) => Ok(device),
                Err(_) => Err(ProtocolError::TransportIo),
            },
        },
    }
}

/// Polls the device for one inbound report: one bounded read attempt every
/// 10 milliseconds until data arrives or the 5-second ceiling (500
/// attempts) elapses. `Ok(None)` is a ceiling timeout, not an error: the
/// device may simply not reply to a given command.
pub fn read(device: &hidapi::HidDevice) -> (r: Result<Option<Vec<u8>>, ProtocolError>)
    ensures
        (r matches Ok(Some(frame)) ==> frame@.len() == DUCKYPAD_TO_PC_HID_BUF_SIZE),
        (r matches Err(e) ==> e == ProtocolError::TransportIo),
{
    let mut attempts: usize = 0;
    while attempts < READ_POLL_ATTEMPTS
        invariant
            attempts <= READ_POLL_ATTEMPTS,
        decreases READ_POLL_ATTEMPTS - attempts,
    {
        let mut buf: Vec<u8> = Vec::new();
        let mut k: usize = 0;
        while k < DUCKYPAD_TO_PC_HID_BUF_SIZE
            invariant
                buf@.len() == k,
                k <= DUCKYPAD_TO_PC_HID_BUF_SIZE,
            decreases DUCKYPAD_TO_PC_HID_BUF_SIZE - k,
        {
            buf.push(0u8);
            k = k + 1;
        }
        match read_report(device, &mut buf, READ_POLL_INTERVAL_MS) {
            Err(_) => {
                return Err(ProtocolError::TransportIo);
            },
            Ok(n) => {
                if n > 0 {
                    return Ok(Some(buf));
                }
            },
        }
        attempts = attempts + 1;
    }
    Ok(None)
}

/// One request/reply exchange: sends the outbound frame, then polls for a
/// reply. This is the sole pattern of device interaction; the protocol is
/// strictly request/reply, never a spontaneous push from the device.
pub fn write(device: &hidapi::HidDevice, buf: &Vec<u8>) -> (r: Result<
    Option<Vec<u8>>,
    ProtocolError,
>)
    requires
        buf@.len() == PC_TO_DUCKYPAD_HID_BUF_SIZE,
    ensures
        (r matches Ok(Some(frame)) ==> frame@.len() == DUCKYPAD_TO_PC_HID_BUF_SIZE),
        (r matches Err(e) ==> e == ProtocolError::TransportIo),
{
    match write_report(device, buf) {
        Err(_) => Err(ProtocolError::TransportIo),
        Ok(_) => read(device),
    }
}

/// Builds the diagnostic record from what the three device queries
/// yielded: each field independently falls back to the literal "unknown"
/// when its own query produced nothing, and the firmware version is
/// decoded as "major.minor.patch" from reply bytes 3, 4 and 5.
pub fn assemble_info(model: Option<String>, serial: Option<String>, reply: Option<Vec<u8>>) -> (r:
    DuckyPadInfo)
    requires
        (reply matches Some(f) ==> f@.len() == DUCKYPAD_TO_PC_HID_BUF_SIZE),
    ensures
        r.model@ == (match model {
            Some(s) => s@,
            None => "unknown"@,
        }),
        r.serial@ == (match serial {
            Some(s) => s@,
            None => "unknown"@,
        }),
        r.firmware@ == (match reply {
            Some(f) => firmware_chars(f@[3], f@[4], f@[5]),
            None => "unknown"@,
        }),
{
    let firmware = match &reply {
        Some(f) => firmware_string(f),
        None => unknown_string(),
    };
    DuckyPadInfo { model: fallback_string(model), serial: fallback_string(serial), firmware }
}

/// Queries the duckypad's model, serial number and firmware version. The
/// fields are diagnostic only: whatever the device cannot supply becomes
/// "unknown", and no underlying error is ever propagated. What each field
/// holds for each query outcome is fixed by `assemble_info`; the device
/// alone decides which outcome occurs, so this contract can pin only the
/// shape of the result: the firmware field is the fallback or a decoded
/// version string.
pub fn info(device: &hidapi::HidDevice) -> (r: DuckyPadInfo)
    ensures
        r.firmware@ == "unknown"@ || (exists|a: u8, b: u8, c: u8|
            r.firmware@ == firmware_chars(a, b, c)),
{
    let model = match product_string(device) {
        Ok(opt) => opt,
        Err(_) => None,
    };
    let serial = match serial_number_string(device) {
        Ok(opt) => opt,
        Err(_) => None,
    };
    let frame = info_frame();
    let reply = match write(device, &frame) {
        Ok(Some(f)) => Some(f),
        _ => None,
    };
    let ghost reply_view = reply;
    let r = assemble_info(model, serial, reply);
    proof {
        match reply_view {
            Some(f) => {
                assert(r.firmware@ == firmware_chars(f@[3], f@[4], f@[5]));
            },
            None => {
                assert(r.firmware@ == "unknown"@);
            },
        }
    }
    r
}

} // verus!
