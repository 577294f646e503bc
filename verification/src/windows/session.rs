//! How a volume change reaches a session's channels, and the lifetime of COM
//! initialisation.
use vstd::prelude::*;

use super::error::{core_error_code_of, HRESULT};

verus! {

/// The level that one channel receives.
#[derive(Debug, Clone, Copy, PartialEq, Eq, Structural)]
pub enum ChannelLevel {
    Left,
    Right,
    Mean,
}

/// How a change of left and right levels is applied to a session.
#[derive(Debug, PartialEq, Eq)]
pub enum VolumePlan {
    /// One master level, the mean of left and right.
    Master,
    /// One level per channel, in channel order.
    Channels(Vec<ChannelLevel>),
}

/// The level of channel `i` among `count` channels.
pub open spec fn channel_level(i: int, count: nat) -> ChannelLevel {
    if count == 1 {
        ChannelLevel::Mean
    } else if i == 0 {
        ChannelLevel::Left
    } else if i == 1 {
        ChannelLevel::Right
    } else {
        ChannelLevel::Mean
    }
}

/// The plan for a session with `channel_count` channels: per channel when the
/// session offers per-channel control and has channels, the master level otherwise.
pub open spec fn is_plan_for(p: VolumePlan, channel_count: u32, has_channel_control: bool) -> bool {
    if has_channel_control && channel_count > 0 {
        p matches VolumePlan::Channels(levels) && levels@.len() == channel_count && forall|i: int|
            0 <= i < channel_count ==> #[trigger] levels@[i] == channel_level(i, channel_count as nat)
    } else {
        p == VolumePlan::Master
    }
}

/// Decides how a change of left and right levels reaches a session's channels:
/// the first two channels take left and right, any further channel and a lone
/// channel take their mean.
pub fn volume_plan(channel_count: u32, has_channel_control: bool) -> (p: VolumePlan)
    ensures
        is_plan_for(p, channel_count, has_channel_control),
{
    if !has_channel_control || channel_count == 0 {
        return VolumePlan::Master;
    }
    let mut levels: Vec<ChannelLevel> = Vec::new();
    let mut i: u32 = 0;
    while i < channel_count
        invariant
            i <= channel_count,
            levels@.len() == i,
            forall|j: int| 0 <= j < i ==> #[trigger] levels@[j] == channel_level(j, channel_count as nat),
        decreases channel_count - i,
    {
        let level = if channel_count == 1 {
            ChannelLevel::Mean
        } else if i == 0 {
            ChannelLevel::Left
        } else if i == 1 {
            ChannelLevel::Right
        } else {
            ChannelLevel::Mean
        };
        levels.push(level);
        i = i + 1;
    }
    VolumePlan::Channels(levels)
}

/// The name shown for a session: system sounds for process 0, otherwise the
/// name of its process.
pub fn session_name(pid: u32, process_name: String) -> (name: String)
    ensures
        name@ == if pid == 0 {
            "System Sounds"@
        } else {
            process_name@
        },
{
    if pid == 0 {
        String::from_str("System Sounds")
    } else {
        process_name
    }
}

/// Keeps COM initialised for as long as it lives; it is to undo only an
/// initialisation that it did itself.
#[derive(Debug)]
pub struct ComGuard {
    initialized: bool,
}

/// Calls `From<HRESULT>` for `windows_result::Error` on a failure code: an error
/// that carries that code (`Error::code` gives it back). Success codes are left
/// out: the error stores one of them, `0x535F4F4B`, as the mark of `S_OK` and
/// gives back 0 for it.
#[verifier::external_body]
fn core_error_from_code(code: HRESULT) -> (e: windows_result::Error)
    requires
        code.0 < 0,
    ensures
        core_error_code_of(e) == code.0,
{
    windows_result::Error::from(windows_result::HRESULT(code.0))
}

impl ComGuard {
    /// Whether this guard initialised COM itself (the call returned `S_OK`
    /// rather than `S_FALSE`).
    pub closed spec fn owns_init(&self) -> bool {
        self.initialized
    }

    /// The guard for the result of `CoInitializeEx`: a success code gives a
    /// guard, which owns the initialisation only for `S_OK`; a failure code
    /// gives the error for that code.
    pub fn from_init_result(hr: HRESULT) -> (r: Result<ComGuard, windows_result::Error>)
        ensures
            r is Ok <==> hr.0 >= 0,
            r matches Ok(g) ==> g.owns_init() == (hr.0 == 0),
            r matches Err(e) ==> core_error_code_of(e) == hr.0,
    {
        if hr.0 >= 0 {
            Ok(ComGuard { initialized: hr.0 == 0 })
        } else {
            Err(core_error_from_code(hr))
        }
    }

    /// Whether dropping the guard is to call `CoUninitialize`.
    pub fn initialized(&self) -> (r: bool)
        ensures
            r == self.owns_init(),
    {
        self.initialized
    }
}

} // verus!
