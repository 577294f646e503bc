//! Errors of the Windows back end, the classification of COM failure codes,
//! and their messages.
use vstd::prelude::*;
use vstd::std_specs::convert::IntoSpec;

use crate::text::{hex_text, push_hex, zero_padded};
use crate::ControllerError;

verus! {

/// Lets the library carry `windows::core::Error` values.
#[verifier::external_type_specification]
#[verifier::external_body]
pub struct ExCoreError(windows_result::Error);

/// A COM result code.
#[derive(Clone, Copy, Debug, PartialEq, Eq, Structural)]
pub struct HRESULT(pub i32);

/// `E_ACCESSDENIED` (0x80070005).
pub const E_ACCESSDENIED: i32 = -2147024891i32;

/// `E_INVALIDARG` (0x80070057).
pub const E_INVALIDARG: i32 = -2147024809i32;

/// `E_NOINTERFACE` (0x80004002).
pub const E_NOINTERFACE: i32 = -2147467262i32;

/// `E_NOTIMPL` (0x80004001).
pub const E_NOTIMPL: i32 = -2147467263i32;

/// `AUDCLNT_E_DEVICE_INVALIDATED` (0x88890004).
pub const AUDCLNT_E_DEVICE_INVALIDATED: i32 = -2004287484i32;

/// `AUDCLNT_E_NOT_STOPPED` (0x88890005).
pub const AUDCLNT_E_NOT_STOPPED: i32 = -2004287483i32;

/// `AUDCLNT_E_ENDPOINT_CREATE_FAILED` (0x8889000F).
pub const AUDCLNT_E_ENDPOINT_CREATE_FAILED: i32 = -2004287473i32;

/// `AUDCLNT_E_SERVICE_NOT_RUNNING` (0x88890010).
pub const AUDCLNT_E_SERVICE_NOT_RUNNING: i32 = -2004287472i32;

/// A failed COM call: its code and the text that the error displays.
#[derive(Debug, Clone, PartialEq, Eq)]
pub struct ComError {
    pub code: HRESULT,
    pub text: String,
}

/// Errors of the Windows back end.
#[derive(Debug, Clone, PartialEq, Eq)]
pub enum WindowsError {
    Com(ComError),
    NotFound,
    PermissionDenied,
    InvalidParameter,
    SessionExpired,
    DeviceError(String),
    Unsupported(String),
    Other(String),
}

/// The result type of the Windows back end.
pub type WindowsResult<T> = Result<T, WindowsError>;

/// `e` is what a COM failure `c` becomes: the codes with a meaning of their own
/// map to the matching variant, every other code stays a `Com` error.
pub open spec fn classifies(e: WindowsError, c: ComError) -> bool {
    let code = c.code.0;
    if code == E_ACCESSDENIED {
        e == WindowsError::PermissionDenied
    } else if code == E_INVALIDARG {
        e == WindowsError::InvalidParameter
    } else if code == AUDCLNT_E_DEVICE_INVALIDATED {
        e == WindowsError::SessionExpired
    } else if code == AUDCLNT_E_NOT_STOPPED {
        e == WindowsError::NotFound
    } else if code == AUDCLNT_E_ENDPOINT_CREATE_FAILED {
        e matches WindowsError::DeviceError(m) && m@ == "Failed to create audio endpoint"@
    } else if code == AUDCLNT_E_SERVICE_NOT_RUNNING {
        e matches WindowsError::DeviceError(m) && m@ == "Windows Audio service is not running"@
    } else if code == E_NOINTERFACE {
        e matches WindowsError::Unsupported(m) && m@ == "Required interface not available"@
    } else if code == E_NOTIMPL {
        e matches WindowsError::Unsupported(m) && m@ == "Operation not implemented"@
    } else {
        e == WindowsError::Com(c)
    }
}

/// The code of an error that carries one.
pub open spec fn hresult_of(e: WindowsError) -> Option<HRESULT> {
    match e {
        WindowsError::Com(c) => Some(c.code),
        _ => None,
    }
}

/// The bits of a code read as an unsigned number (`code as u32`).
pub open spec fn unsigned_code(code: i32) -> u32 {
    (if code < 0 {
        code + 0x1_0000_0000
    } else {
        code as int
    }) as u32
}

/// Whether an error means that the session or its device went away.
pub open spec fn means_session_expired(e: WindowsError) -> bool {
    ||| e == WindowsError::SessionExpired
    ||| (hresult_of(e) matches Some(hr) && (hr.0 == AUDCLNT_E_DEVICE_INVALIDATED || hr.0
        == AUDCLNT_E_SERVICE_NOT_RUNNING))
}

/// Whether an error means that access was refused.
pub open spec fn means_permission_denied(e: WindowsError) -> bool {
    ||| e == WindowsError::PermissionDenied
    ||| (hresult_of(e) matches Some(hr) && (hr.0 == E_ACCESSDENIED || hr.0 == E_NOINTERFACE))
}

/// The message of an error.
pub open spec fn windows_error_text(e: WindowsError) -> Seq<char> {
    match e {
        WindowsError::Com(c) => if c.code.0 == AUDCLNT_E_DEVICE_INVALIDATED {
            "Audio device was removed or became invalid"@
        } else if c.code.0 == E_ACCESSDENIED {
            "Access denied. Run as administrator or adjust permissions"@
        } else if c.code.0 == E_INVALIDARG {
            "Invalid parameter passed to COM function"@
        } else {
            "COM error (0x"@ + hex_text(unsigned_code(c.code.0) as nat) + "): "@ + c.text@
        },
        WindowsError::NotFound => "Audio session not found"@,
        WindowsError::PermissionDenied => "Permission denied. Run as administrator or adjust ACLs"@,
        WindowsError::InvalidParameter => "Invalid parameter (volume must be 0.0-1.0, session ID must be valid)"@,
        WindowsError::SessionExpired => "Audio session has ended"@,
        WindowsError::DeviceError(m) => "Audio device error: "@ + m@,
        WindowsError::Unsupported(m) => "Unsupported operation: "@ + m@,
        WindowsError::Other(m) => "Audio controller error: "@ + m@,
    }
}

/// The code that a `windows::core::Error` carries (`Error::code`).
pub uninterp spec fn core_error_code_of(err: windows_result::Error) -> i32;

/// Calls `windows_result::Error::code` and keeps the code as the library's
/// `HRESULT`: the code that the error carries.
#[verifier::external_body]
fn core_error_code(err: &windows_result::Error) -> (code: HRESULT)
    ensures
        code.0 == core_error_code_of(*err),
{
    HRESULT(err.code().0)
}

/// How `HRESULT` displays a code: `0x` and eight upper-case hexadecimal digits
/// (`{:#010X}`).
pub open spec fn hresult_display(code: i32) -> Seq<char> {
    "0x"@ + zero_padded(hex_text(unsigned_code(code) as nat), 8)
}

/// The forms of the text that `Display` gives an error with code `code`: the
/// code alone, or a message followed by the code in brackets.
pub open spec fn core_error_display(text: Seq<char>, code: i32) -> bool {
    ||| text == hresult_display(code)
    ||| exists|m: Seq<char>| text == m + " ("@ + hresult_display(code) + ")"@
}

/// Calls `to_string` on a `windows_result::Error`. Its `Display` writes the
/// error's code, after the error's message and in brackets when the message is
/// not empty. The message is left unstated: on Windows it comes from the
/// operating system, and `Display` reads it once to test it and once to write it.
#[verifier::external_body]
pub(crate) fn core_error_text(err: &windows_result::Error) -> (text: String)
    ensures
        core_error_display(text@, core_error_code_of(*err)),
{
    err.to_string()
}

impl WindowsError {
    /// The error that a COM failure stands for.
    pub fn from_com_error(c: ComError) -> (e: Self)
        ensures
            classifies(e, c),
    {
        let code = c.code.0;
        if code == E_ACCESSDENIED {
            WindowsError::PermissionDenied
        } else if code == E_INVALIDARG {
            WindowsError::InvalidParameter
        } else if code == AUDCLNT_E_DEVICE_INVALIDATED {
            WindowsError::SessionExpired
        } else if code == AUDCLNT_E_NOT_STOPPED {
            WindowsError::NotFound
        } else if code == AUDCLNT_E_ENDPOINT_CREATE_FAILED {
            WindowsError::DeviceError(String::from_str("Failed to create audio endpoint"))
        } else if code == AUDCLNT_E_SERVICE_NOT_RUNNING {
            WindowsError::DeviceError(String::from_str("Windows Audio service is not running"))
        } else if code == E_NOINTERFACE {
            WindowsError::Unsupported(String::from_str("Required interface not available"))
        } else if code == E_NOTIMPL {
            WindowsError::Unsupported(String::from_str("Operation not implemented"))
        } else {
            WindowsError::Com(c)
        }
    }

    /// The error that a `windows::core::Error` stands for: that of its code and text.
    pub fn from_core_error(err: windows_result::Error) -> (e: Self)
        ensures
            exists|c: ComError|
                c.code.0 == core_error_code_of(err) && core_error_display(c.text@, c.code.0)
                    && classifies(e, c),
    {
        let code = core_error_code(&err);
        let text = core_error_text(&err);
        Self::from_com_error(ComError { code, text })
    }

    /// A device error with the given message.
    pub fn device_error(msg: &str) -> (e: Self)
        ensures
            e matches WindowsError::DeviceError(m) && m@ == msg@,
    {
        WindowsError::DeviceError(String::from_str(msg))
    }

    /// An unsupported-operation error with the given message.
    pub fn unsupported(msg: &str) -> (e: Self)
        ensures
            e matches WindowsError::Unsupported(m) && m@ == msg@,
    {
        WindowsError::Unsupported(String::from_str(msg))
    }

    /// An error of another kind with the given message.
    pub fn other(msg: &str) -> (e: Self)
        ensures
            e matches WindowsError::Other(m) && m@ == msg@,
    {
        WindowsError::Other(String::from_str(msg))
    }

    /// The COM code that the error carries, if any.
    pub fn hresult(&self) -> (r: Option<HRESULT>)
        ensures
            r == hresult_of(*self),
    {
        match self {
            WindowsError::Com(c) => Some(c.code),
            _ => None,
        }
    }

    /// The COM code that the error carries, as an unsigned number.
    pub fn code(&self) -> (r: Option<u32>)
        ensures
            r == match hresult_of(*self) {
                Some(hr) => Some(unsigned_code(hr.0)),
                None => None,
            },
    {
        match self.hresult() {
            Some(hr) => {
                let c = hr.0;
                let u = c as u32;
                assert(u == unsigned_code(c)) by (bit_vector)
                    requires
                        u == c as u32,
                ;
                Some(u)
            },
            None => None,
        }
    }

    /// Whether the session or its device went away.
    pub fn is_session_expired(&self) -> (r: bool)
        ensures
            r == means_session_expired(*self),
    {
        match self {
            WindowsError::SessionExpired => true,
            _ => match self.hresult() {
                Some(hr) => hr.0 == AUDCLNT_E_DEVICE_INVALIDATED || hr.0
                    == AUDCLNT_E_SERVICE_NOT_RUNNING,
                None => false,
            },
        }
    }

    /// Whether access was refused.
    pub fn is_permission_denied(&self) -> (r: bool)
        ensures
            r == means_permission_denied(*self),
    {
        match self {
            WindowsError::PermissionDenied => true,
            _ => match self.hresult() {
                Some(hr) => hr.0 == E_ACCESSDENIED || hr.0 == E_NOINTERFACE,
                None => false,
            },
        }
    }

    /// The message of the error.
    pub fn message(&self) -> (text: String)
        ensures
            text@ == windows_error_text(*self),
    {
        match self {
            WindowsError::Com(c) => {
                let code = c.code.0;
                if code == AUDCLNT_E_DEVICE_INVALIDATED {
                    String::from_str("Audio device was removed or became invalid")
                } else if code == E_ACCESSDENIED {
                    String::from_str("Access denied. Run as administrator or adjust permissions")
                } else if code == E_INVALIDARG {
                    String::from_str("Invalid parameter passed to COM function")
                } else {
                    let u = code as u32;
                    assert(u == unsigned_code(code)) by (bit_vector)
                        requires
                            u == code as u32,
                    ;
                    let mut text = String::from_str("COM error (0x");
                    push_hex(&mut text, u);
                    text.append("): ");
                    text.append(c.text.as_str());
                    text
                }
            },
            WindowsError::NotFound => String::from_str("Audio session not found"),
            WindowsError::PermissionDenied => String::from_str(
                "Permission denied. Run as administrator or adjust ACLs",
            ),
            WindowsError::InvalidParameter => String::from_str(
                "Invalid parameter (volume must be 0.0-1.0, session ID must be valid)",
            ),
            WindowsError::SessionExpired => String::from_str("Audio session has ended"),
            WindowsError::DeviceError(m) => {
                let mut text = String::from_str("Audio device error: ");
                text.append(m.as_str());
                text
            },
            WindowsError::Unsupported(m) => {
                let mut text = String::from_str("Unsupported operation: ");
                text.append(m.as_str());
                text
            },
            WindowsError::Other(m) => {
                let mut text = String::from_str("Audio controller error: ");
                text.append(m.as_str());
                text
            },
        }
    }
}

/// What a Windows error becomes at the platform-independent interface.
pub open spec fn controller_error_of(e: WindowsError) -> ControllerError {
    match e {
        WindowsError::Com(c) => ControllerError::PlatformError(c.text),
        WindowsError::NotFound => ControllerError::NotFound,
        WindowsError::PermissionDenied => ControllerError::PermissionDenied,
        WindowsError::InvalidParameter => ControllerError::InvalidParameter,
        WindowsError::SessionExpired => ControllerError::SessionExpired,
        WindowsError::DeviceError(m) => ControllerError::PlatformError(m),
        WindowsError::Unsupported(_) => ControllerError::UnsupportedOperation,
        WindowsError::Other(m) => ControllerError::Other(m),
    }
}

/// The codes that have a meaning of their own.
pub open spec fn is_known_code(code: i32) -> bool {
    ||| code == E_ACCESSDENIED
    ||| code == E_INVALIDARG
    ||| code == AUDCLNT_E_DEVICE_INVALIDATED
    ||| code == AUDCLNT_E_NOT_STOPPED
    ||| code == AUDCLNT_E_ENDPOINT_CREATE_FAILED
    ||| code == AUDCLNT_E_SERVICE_NOT_RUNNING
    ||| code == E_NOINTERFACE
    ||| code == E_NOTIMPL
}

/// A COM failure keeps its code exactly when the code has no meaning of its own.
pub proof fn law_code_kept_unless_known(e: WindowsError, c: ComError)
    requires
        classifies(e, c),
    ensures
        !is_known_code(c.code.0) ==> e == WindowsError::Com(c) && hresult_of(e) == Some(c.code),
        is_known_code(c.code.0) ==> hresult_of(e) is None,
{
}

/// After classification, an error means refused access exactly for
/// `E_ACCESSDENIED`, and a vanished session exactly for a device that became
/// invalid.
pub proof fn law_classified_predicates(e: WindowsError, c: ComError)
    requires
        classifies(e, c),
    ensures
        means_permission_denied(e) <==> c.code.0 == E_ACCESSDENIED,
        means_session_expired(e) <==> c.code.0 == AUDCLNT_E_DEVICE_INVALIDATED,
{
}

/// At the platform-independent interface, refused access, a missing session and
/// an ended session keep their meaning, and no other Windows error takes it.
pub proof fn law_interface_keeps_meaning(e: WindowsError)
    ensures
        controller_error_of(e) == ControllerError::PermissionDenied <==> e
            == WindowsError::PermissionDenied,
        controller_error_of(e) == ControllerError::NotFound <==> e == WindowsError::NotFound,
        controller_error_of(e) == ControllerError::SessionExpired <==> e
            == WindowsError::SessionExpired,
{
}

impl From<WindowsError> for ControllerError {
    fn from(err: WindowsError) -> (r: Self) {
        match err {
            WindowsError::Com(c) => ControllerError::PlatformError(c.text),
            WindowsError::NotFound => ControllerError::NotFound,
            WindowsError::PermissionDenied => ControllerError::PermissionDenied,
            WindowsError::InvalidParameter => ControllerError::InvalidParameter,
            WindowsError::SessionExpired => ControllerError::SessionExpired,
            WindowsError::DeviceError(msg) => ControllerError::PlatformError(msg),
            WindowsError::Unsupported(_msg) => ControllerError::UnsupportedOperation,
            WindowsError::Other(msg) => ControllerError::Other(msg),
        }
    }
}

impl vstd::std_specs::convert::FromSpecImpl<WindowsError> for ControllerError {
    open spec fn obeys_from_spec() -> bool {
        true
    }

    open spec fn from_spec(v: WindowsError) -> ControllerError {
        controller_error_of(v)
    }
}

} // verus!
