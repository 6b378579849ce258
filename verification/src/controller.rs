use vstd::prelude::*;

use crate::hid;
use crate::protocol::ProtocolError;
use crate::protocol::profile_frame;
use crate::protocol::spec_valid_profile;
use crate::rules::Config;
use crate::rules::Rules;
use crate::rules::next_profile;
use crate::rules::spec_next_profile;
use crate::window::WindowContext;

verus! {

/// What one polling cycle produced: the profile the controller now believes
/// is applied, and, when a switch was performed this cycle, the profile
/// that was switched to (so the caller can fire its callback).
pub struct TickOutcome {
    pub profile: Option<u32>,
    pub switched: Option<u32>,
}

/// Autoswitching is on unless the configuration turns it off.
pub open spec fn spec_autoswitch_on(config: Config) -> bool {
    config.autoswitch_enabled != Some(false)
}

/// The profile a cycle should switch to: the candidate the rules selected,
/// unless there is none or it is already applied (debounce).
pub open spec fn spec_should_switch(prev: Option<u32>, candidate: Option<u32>) -> Option<u32> {
    match candidate {
        None => None,
        Some(c) => if prev == Some(c) {
            None
        } else {
            Some(c)
        },
    }
}

/// The controller's belief after a switch attempt: the new profile when the
/// device confirmed the switch, the previous belief otherwise.
pub open spec fn spec_confirm(prev: Option<u32>, candidate: u32, success: bool) -> Option<u32> {
    if success {
        Some(candidate)
    } else {
        prev
    }
}

/// Decides whether this cycle must talk to the device at all: yields the
/// candidate profile unless none was selected or it is already applied.
pub fn should_switch(prev: Option<u32>, candidate: Option<u32>) -> (r: Option<u32>)
    ensures
        r == spec_should_switch(prev, candidate),
{
    match candidate {
        None => None,
        Some(c) => match prev {
            Some(p) => if p == c {
                None
            } else {
                Some(c)
            },
            None => Some(c),
        },
    }
}

/// Folds the result of a switch attempt into the controller's belief:
/// only a confirmed switch advances it.
pub fn confirm(prev: Option<u32>, candidate: u32, success: bool) -> (r: Option<u32>)
    ensures
        r == spec_confirm(prev, candidate, success),
{
    if success {
        Some(candidate)
    } else {
        prev
    }
}

/// Switches the device to `profile` by one request/reply exchange. A
/// profile outside the firmware's range is rejected before any frame is
/// built or any transport is touched. A transport failure or a total
/// non-response is an error: the device's state is then unknown, and the
/// caller keeps its previous belief.
pub fn goto_profile(device: &hidapi::HidDevice, profile: u32) -> (r: Result<(), ProtocolError>)
    ensures
        !spec_valid_profile(profile) ==> r == Err::<(), ProtocolError>(
            ProtocolError::InvalidProfile,
        ),
        spec_valid_profile(profile) ==> (r is Ok || r == Err::<(), ProtocolError>(
            ProtocolError::TransportIo,
        ) || r == Err::<(), ProtocolError>(ProtocolError::ProtocolTimeout)),
{
    let frame = match profile_frame(profile) {
        Err(e) => {
            return Err(e);
        },
        Ok(f) => f,
    };
    match hid::write(device, &frame) {
        Err(e) => Err(e),
        Ok(Some(_)) => Ok(()),
        Ok(None) => Err(ProtocolError::ProtocolTimeout),
    }
}

/// One polling cycle: evaluates the rules against the context, debounces
/// against the profile already applied, and only when a different profile
/// is wanted opens a fresh device session and switches. Every device
/// failure is swallowed here: the previous belief is kept, so an unchanged
/// context makes the next cycle attempt the same switch again.
pub fn switch_profile(
    api: &hidapi::HidApi,
    config: &Config,
    prev_profile: Option<u32>,
    ctx: &WindowContext,
) -> (r: TickOutcome)
    ensures
        r.switched is None ==> r.profile == prev_profile,
        (r.switched matches Some(p) ==> (spec_autoswitch_on(*config) && spec_should_switch(
            prev_profile,
            spec_next_profile(config.rules_list@, *ctx),
        ) == Some::<u32>(p) && r.profile == Some::<u32>(p) && spec_valid_profile(p))),
        !spec_autoswitch_on(*config) ==> r.switched is None,
        spec_should_switch(prev_profile, spec_next_profile(config.rules_list@, *ctx)) is None
            ==> r.switched is None,
{
    let enabled = match config.autoswitch_enabled {
        Some(b) => b,
        None => true,
    };
    if !enabled {
        return TickOutcome { profile: prev_profile, switched: None };
    }
    let candidate = next_profile(config, ctx);
    match should_switch(prev_profile, candidate) {
        None => TickOutcome { profile: prev_profile, switched: None },
        Some(c) => match hid::init(api) {
            Err(_) => TickOutcome { profile: confirm(prev_profile, c, false), switched: None },
            Ok(device) => match goto_profile(&device, c) {
                Ok(_) => TickOutcome {
                    profile: confirm(prev_profile, c, true),
                    switched: Some(c),
                },
                Err(_) => TickOutcome { profile: confirm(prev_profile, c, false), switched: None },
            },
        },
    }
}

/// Debounce: once a cycle has switched to the candidate that the context
/// yields, a second cycle over the same rules and context plans no further
/// device write.
pub proof fn lemma_debounce(rules: Seq<Rules>, ctx: WindowContext, prev: Option<u32>, c: u32)
    requires
        spec_next_profile(rules, ctx) == Some(c),
        spec_should_switch(prev, spec_next_profile(rules, ctx)) == Some(c),
    ensures
        spec_should_switch(spec_confirm(prev, c, true), spec_next_profile(rules, ctx)) is None,
{
}

/// A failed switch leaves the belief unchanged, and an unchanged matching
/// context makes the next cycle attempt the very same switch again.
pub proof fn lemma_failed_switch_retries(prev: Option<u32>, c: u32)
    requires
        spec_should_switch(prev, Some(c)) == Some(c),
    ensures
        spec_confirm(prev, c, false) == prev,
        spec_should_switch(spec_confirm(prev, c, false), Some(c)) == Some(c),
{
}

} // verus!
