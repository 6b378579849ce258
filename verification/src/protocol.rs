use vstd::prelude::*;
use vstd::string::StringExecFns;

use crate::text::dec_chars;
use crate::text::u8_to_string;

verus! {

/// Outbound (host to device) report size in bytes.
pub const PC_TO_DUCKYPAD_HID_BUF_SIZE: usize = 64;

/// Inbound (device to host) report size in bytes.
pub const DUCKYPAD_TO_PC_HID_BUF_SIZE: usize = 32;

/// Lowest profile number the device firmware accepts.
pub const PROFILE_MIN: u32 = 1;

/// Highest profile number the device firmware accepts.
pub const PROFILE_MAX: u32 = 31;

/// How a device exchange can fail.
#[derive(Clone, Copy, PartialEq, Eq, Structural, Debug)]
pub enum ProtocolError {
    /// No attached HID interface has the duckypad's identity. Expected
    /// whenever the device is unplugged; the caller retries later.
    DeviceNotFound,
    /// Opening, writing to or reading from the device failed.
    TransportIo,
    /// The device did not reply within the polling ceiling.
    ProtocolTimeout,
    /// The requested profile is outside the firmware's range; rejected
    /// before any frame is built or sent.
    InvalidProfile,
}

/// Profile numbers the firmware stores: 1 through 31 inclusive.
pub open spec fn spec_valid_profile(profile: u32) -> bool {
    PROFILE_MIN <= profile <= PROFILE_MAX
}

/// The outbound report that asks the device to switch to `profile`:
/// byte 0 is the command family 0x05, byte 2 the sub-operation 0x01,
/// bytes 3 onward the little-endian profile number, everything else zero.
pub open spec fn switch_frame_bytes(profile: u32) -> Seq<u8> {
    Seq::new(
        PC_TO_DUCKYPAD_HID_BUF_SIZE as nat,
        |i: int|
            if i == 0 {
                0x05u8
            } else if i == 2 {
                0x01u8
            } else if i == 3 {
                profile as u8
            } else {
                0u8
            },
    )
}

/// The outbound report that queries device information: byte 0 is the
/// command family 0x05, everything else zero.
pub open spec fn info_frame_bytes() -> Seq<u8> {
    Seq::new(PC_TO_DUCKYPAD_HID_BUF_SIZE as nat, |i: int| if i == 0 { 0x05u8 } else { 0u8 })
}

/// Builds the switch request frame for `profile`, rejecting any profile
/// outside the firmware's range before a frame exists.
pub fn profile_frame(profile: u32) -> (r: Result<Vec<u8>, ProtocolError>)
    ensures
        spec_valid_profile(profile) ==> (r matches Ok(f) && f@ == switch_frame_bytes(profile)),
        !spec_valid_profile(profile) ==> r == Err::<Vec<u8>, ProtocolError>(
            ProtocolError::InvalidProfile,
        ),
{
    if profile < PROFILE_MIN || profile > PROFILE_MAX {
        return Err(ProtocolError::InvalidProfile);
    }
    let mut f: Vec<u8> = Vec::new();
    f.push(0x05u8);
    f.push(0u8);
    f.push(0x01u8);
    f.push(profile as u8);
    while f.len() < PC_TO_DUCKYPAD_HID_BUF_SIZE
        invariant
            4 <= f@.len() <= PC_TO_DUCKYPAD_HID_BUF_SIZE,
            f@[0] == 0x05u8,
            f@[1] == 0u8,
            f@[2] == 0x01u8,
            f@[3] == profile as u8,
            forall|j: int| 4 <= j < f@.len() ==> f@[j] == 0u8,
        decreases PC_TO_DUCKYPAD_HID_BUF_SIZE - f@.len(),
    {
        f.push(0u8);
    }
    proof {
        assert(f@ =~= switch_frame_bytes(profile));
    }
    Ok(f)
}

/// Builds the information query frame.
pub fn info_frame() -> (r: Vec<u8>)
    ensures
        r@ == info_frame_bytes(),
{
    let mut f: Vec<u8> = Vec::new();
    f.push(0x05u8);
    while f.len() < PC_TO_DUCKYPAD_HID_BUF_SIZE
        invariant
            1 <= f@.len() <= PC_TO_DUCKYPAD_HID_BUF_SIZE,
            f@[0] == 0x05u8,
            forall|j: int| 1 <= j < f@.len() ==> f@[j] == 0u8,
        decreases PC_TO_DUCKYPAD_HID_BUF_SIZE - f@.len(),
    {
        f.push(0u8);
    }
    proof {
        assert(f@ =~= info_frame_bytes());
    }
    f
}

/// The characters of the firmware version string "major.minor.patch" built
/// from the three raw version bytes of an information reply.
pub open spec fn firmware_chars(major: u8, minor: u8, patch: u8) -> Seq<char> {
    dec_chars(major as int) + seq!['.'] + dec_chars(minor as int) + seq!['.'] + dec_chars(
        patch as int,
    )
}

/// Decodes the firmware version from an information reply frame: bytes 3,
/// 4 and 5 hold major, minor and patch as raw values.
pub fn firmware_string(frame: &Vec<u8>) -> (r: String)
    requires
        frame@.len() == DUCKYPAD_TO_PC_HID_BUF_SIZE,
    ensures
        r@ == firmware_chars(frame@[3], frame@[4], frame@[5]),
{
    proof {
        reveal_strlit(".");
    }
    let mut s = u8_to_string(frame[3]);
    s.append(".");
    let minor = u8_to_string(frame[4]);
    s.append(minor.as_str());
    s.append(".");
    let patch = u8_to_string(frame[5]);
    s.append(patch.as_str());
    proof {
        assert(s@ =~= firmware_chars(frame@[3], frame@[4], frame@[5]));
    }
    s
}

} // verus!
