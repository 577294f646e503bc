//! The Windows controller: the enumerator it keeps, the endpoint name it shows,
//! and the checks that precede a change of a session.
use vstd::prelude::*;

use super::enumerator::{
    kept_sessions, lookup_view, DeviceRole, EnumeratorConfig, SessionEnumerator,
};
use super::error::{
    controller_error_of, core_error_code_of, core_error_display, core_error_text,
    windows_error_text, WindowsError,
};
use super::session::ComGuard;
use super::utils::{device_display_name, device_display_text, lemma_device_display_text};
use crate::{lists_table, ControllerError, Session, SessionView};

verus! {

/// What an enumeration of the default endpoint came to. `friendly_name` is the
/// endpoint's friendly-name property, when it could be read.
pub enum Discovery {
    /// The endpoint was found and its sessions looked up, one outcome per session.
    Found { friendly_name: Option<String>, lookups: Vec<Result<Option<Session>, WindowsError>> },
    /// The enumeration failed, after the endpoint was found when `endpoint_found`.
    Failed { endpoint_found: bool, friendly_name: Option<String>, error: WindowsError },
}

/// The state of a controller once a discovery is recorded: for a complete one,
/// the sessions kept and the endpoint's shown name.
pub open spec fn refreshed(
    config: EnumeratorConfig,
    friendly_name: Option<String>,
    lookups: Seq<Result<Option<Session>, WindowsError>>,
    c: WindowsController,
) -> bool {
    &&& c.enumerator_view().config == config
    &&& c.enumerator_view().sessions == kept_sessions(config, lookups.map_values(|x| lookup_view(x)))
    &&& c.enumerator_view().device_name == device_display_text(friendly_name)
    &&& c.device_name_view() == device_display_text(friendly_name)
}

/// The message of a controller whose COM initialisation failed with `e`: the
/// words `COM initialization failed: ` and the text that `e` displays.
pub open spec fn com_init_failure(m: Seq<char>, e: windows_result::Error) -> bool {
    exists|t: Seq<char>|
        core_error_display(t, core_error_code_of(e)) && m == "COM initialization failed: "@ + t
}

/// The Windows controller.
pub struct WindowsController {
    enumerator: SessionEnumerator,
    device_name: String,
    com_guard: ComGuard,
}

impl WindowsController {
    /// The enumerator that the controller keeps.
    pub closed spec fn enumerator_view(&self) -> super::enumerator::EnumeratorView {
        self.enumerator@
    }

    /// The endpoint name that the controller shows.
    pub closed spec fn device_name_view(&self) -> Seq<char> {
        self.device_name@
    }

    /// Whether the controller's COM guard did the initialisation itself.
    pub closed spec fn com_owned(&self) -> bool {
        self.com_guard.owns_init()
    }

    /// A controller from the results of COM initialisation and of creating its
    /// enumerator, not yet refreshed.
    fn with_enumerator(
        com_guard: Result<ComGuard, windows_result::Error>,
        enumerator: Result<SessionEnumerator, WindowsError>,
    ) -> (r: Result<Self, ControllerError>)
        ensures
            com_guard is Err ==> (r matches Err(ControllerError::PlatformError(m))
                && com_init_failure(m@, com_guard->Err_0)),
            com_guard is Ok && enumerator is Err ==> (r matches Err(ControllerError::PlatformError(m))
                && m@ == "Failed to create enumerator: "@ + windows_error_text(enumerator->Err_0)),
            com_guard is Ok && enumerator is Ok ==> (r matches Ok(c) && c.enumerator_view()
                == enumerator->Ok_0@ && c.com_owned() == com_guard->Ok_0.owns_init()),
    {
        let guard = match com_guard {
            Ok(g) => g,
            Err(e) => {
                let mut m = String::from_str("COM initialization failed: ");
                let text = core_error_text(&e);
                m.append(text.as_str());
                proof {
                    assert(m@ == "COM initialization failed: "@ + text@);
                }
                return Err(ControllerError::PlatformError(m));
            },
        };
        match enumerator {
            Ok(en) => Ok(WindowsController { enumerator: en, device_name: String::new(), com_guard: guard }),
            Err(e) => {
                let mut m = String::from_str("Failed to create enumerator: ");
                let text = e.message();
                m.append(text.as_str());
                Err(ControllerError::PlatformError(m))
            },
        }
    }

    /// A controller with the configuration `config`, refreshed once with the
    /// discovery `first`: the failure of COM initialisation, of the enumerator's
    /// creation or of that refresh, or the refreshed controller, whose endpoint
    /// name is never empty.
    pub fn with_config(
        com_guard: Result<ComGuard, windows_result::Error>,
        config: EnumeratorConfig,
        first: Discovery,
    ) -> (r: Result<Self, ControllerError>)
        ensures
            com_guard is Err ==> (r matches Err(ControllerError::PlatformError(m))
                && com_init_failure(m@, com_guard->Err_0)),
            com_guard is Ok && config.min_volume_percent > 100 ==> (r matches Err(
                ControllerError::PlatformError(m),
            ) && m@ == "Failed to create enumerator: "@ + windows_error_text(
                WindowsError::InvalidParameter,
            )),
            com_guard is Ok && config.min_volume_percent <= 100 ==> match first {
                Discovery::Found { friendly_name, lookups } => r matches Ok(c) && refreshed(
                    config,
                    friendly_name,
                    lookups@,
                    c,
                ) && c.com_owned() == com_guard->Ok_0.owns_init(),
                Discovery::Failed { error, .. } => r == Err::<Self, ControllerError>(
                    controller_error_of(error),
                ),
            },
            r matches Ok(c) ==> c.device_name_view().len() > 0,
    {
        let mut c = Self::with_enumerator(com_guard, SessionEnumerator::with_config(config))?;
        proof {
            lemma_device_display_text();
        }
        c.record_refresh(first)?;
        Ok(c)
    }

    /// A controller with the default configuration, refreshed once with the
    /// discovery `first` (see `with_config`).
    pub fn new(com_guard: Result<ComGuard, windows_result::Error>, first: Discovery) -> (r: Result<
        Self,
        ControllerError,
    >)
        ensures
            com_guard is Err ==> (r matches Err(ControllerError::PlatformError(m))
                && com_init_failure(m@, com_guard->Err_0)),
            com_guard is Ok ==> match first {
                Discovery::Found { friendly_name, lookups } => r matches Ok(c) && refreshed(
                    EnumeratorConfig {
                        device_role: DeviceRole::Console,
                        include_system: true,
                        min_volume_percent: 0,
                    },
                    friendly_name,
                    lookups@,
                    c,
                ) && c.com_owned() == com_guard->Ok_0.owns_init(),
                Discovery::Failed { error, .. } => r == Err::<Self, ControllerError>(
                    controller_error_of(error),
                ),
            },
            r matches Ok(c) ==> c.device_name_view().len() > 0,
    {
        Self::with_config(com_guard, EnumeratorConfig::default(), first)
    }

    /// Whether the controller is to undo COM initialisation when it goes.
    pub fn owns_com(&self) -> (r: bool)
        ensures
            r == self.com_owned(),
    {
        self.com_guard.initialized()
    }

    /// The name of the endpoint, as of the last complete refresh.
    pub fn device_name(&self) -> (r: &str)
        ensures
            r@ == self.device_name_view(),
    {
        self.device_name.as_str()
    }

    /// The sessions of the last enumeration, each once, in no particular order.
    pub fn windows_sessions(&self) -> (r: Vec<Session>)
        ensures
            lists_table(r@, self.enumerator_view().sessions),
    {
        self.enumerator.sessions()
    }

    /// The number of sessions of the last enumeration.
    pub fn session_count(&self) -> (r: usize)
        ensures
            r == self.enumerator_view().sessions.dom().len(),
    {
        self.enumerator.len()
    }

    /// The sessions, as the platform-independent interface lists them.
    pub fn list_sessions(&self) -> (r: Result<Vec<Session>, ControllerError>)
        ensures
            r matches Ok(v) && lists_table(v@, self.enumerator_view().sessions),
    {
        Ok(self.enumerator.sessions())
    }

    /// Takes what a refresh found: a complete enumeration replaces the sessions
    /// and the shown endpoint name; a failed one reports its error, the
    /// enumerator keeping the endpoint name if it got that far.
    pub fn record_refresh(&mut self, discovery: Discovery) -> (r: Result<(), ControllerError>)
        ensures
            ({
                let before = old(self).enumerator_view();
                match discovery {
                    Discovery::Found { friendly_name, lookups } => {
                        &&& r == Ok::<(), ControllerError>(())
                        &&& refreshed(before.config, friendly_name, lookups@, *final(self))
                        &&& final(self).com_owned() == old(self).com_owned()
                    },
                    Discovery::Failed { endpoint_found, friendly_name, error } => {
                        &&& r == Err::<(), ControllerError>(controller_error_of(error))
                        &&& final(self).enumerator_view().sessions == before.sessions
                        &&& final(self).enumerator_view().config == before.config
                        &&& final(self).enumerator_view().device_name == if endpoint_found {
                            device_display_text(friendly_name)
                        } else {
                            before.device_name
                        }
                        &&& final(self).device_name_view() == old(self).device_name_view()
                        &&& final(self).com_owned() == old(self).com_owned()
                    },
                }
            }),
    {
        match discovery {
            Discovery::Found { friendly_name, lookups } => {
                let name = device_display_name(friendly_name);
                let shown = name.clone();
                self.enumerator.record_discovery(name, lookups);
                self.device_name = shown;
                Ok(())
            },
            Discovery::Failed { endpoint_found, friendly_name, error } => {
                if endpoint_found {
                    self.enumerator.set_device_name(device_display_name(friendly_name));
                }
                Err(ControllerError::from(error))
            },
        }
    }

    /// The session that a change of volume or mute state is for: `InvalidParameter`
    /// for id 0, `NotFound` for an id without a session.
    pub fn target(&self, id: u32) -> (r: Result<Session, ControllerError>)
        ensures
            id == 0 ==> r == Err::<Session, ControllerError>(ControllerError::InvalidParameter),
            id != 0 && !self.enumerator_view().sessions.contains_key(id) ==> r == Err::<Session, ControllerError>(
                ControllerError::NotFound,
            ),
            id != 0 && self.enumerator_view().sessions.contains_key(id) ==> (r matches Ok(s) && s@
                == self.enumerator_view().sessions[id]),
    {
        self.enumerator.target(id)
    }
}

} // verus!
