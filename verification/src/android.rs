//! The Android back end, which does not control sessions yet: every operation
//! reports that it is not ready.
use vstd::prelude::*;

use crate::{ControllerError, Session};

verus! {

/// The error of every Android operation.
pub open spec fn not_ready(e: ControllerError) -> bool {
    e matches ControllerError::PlatformError(m) && m@ == "Android implementation not ready"@
}

fn not_ready_error() -> (e: ControllerError)
    ensures
        not_ready(e),
{
    ControllerError::PlatformError(String::from_str("Android implementation not ready"))
}

/// The Android controller.
#[derive(Debug)]
pub struct AndroidController {
    _private: (),
}

impl AndroidController {
    /// Creating a controller fails: the back end is not ready.
    pub fn new() -> (r: Result<Self, ControllerError>)
        ensures
            r matches Err(e) && not_ready(e),
    {
        Err(not_ready_error())
    }

    /// A controller bound to the Java side. The JNI environment and the audio
    /// service that the Java side passes are not used yet, so binding succeeds.
    pub fn from_jni() -> (r: Result<Self, ControllerError>)
        ensures
            r is Ok,
    {
        Ok(AndroidController { _private: () })
    }

    /// Listing fails: the back end is not ready.
    pub fn list_sessions(&self) -> (r: Result<Vec<Session>, ControllerError>)
        ensures
            r matches Err(e) && not_ready(e),
    {
        Err(not_ready_error())
    }

    /// Setting a volume fails: the back end is not ready.
    pub fn set_volume(&mut self, _id: u32, _left_percent: u32, _right_percent: u32) -> (r: Result<
        (),
        ControllerError,
    >)
        ensures
            r matches Err(e) && not_ready(e),
            *final(self) == *old(self),
    {
        Err(not_ready_error())
    }

    /// Setting the mute state fails: the back end is not ready.
    pub fn set_mute(&mut self, _id: u32, _mute: bool) -> (r: Result<(), ControllerError>)
        ensures
            r matches Err(e) && not_ready(e),
            *final(self) == *old(self),
    {
        Err(not_ready_error())
    }
}

} // verus!
