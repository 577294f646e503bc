//! The Windows Core Audio back end: its error model and the decisions that
//! surround its COM calls.
pub mod controller;
pub mod enumerator;
pub mod error;
pub mod session;
pub mod utils;

pub use controller::{Discovery, WindowsController};
pub use enumerator::{DeviceRole, EnumeratorConfig, ERole, SessionEnumerator};
pub use error::{ComError, WindowsError, WindowsResult, HRESULT};
pub use session::{ChannelLevel, ComGuard, VolumePlan};
