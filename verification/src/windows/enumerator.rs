//! The choice of audio endpoint and the filter that decides which sessions an
//! enumeration keeps.
use std::collections::HashMap;
use vstd::prelude::*;
use vstd::std_specs::iter::IteratorSpec;

use super::error::{WindowsError, WindowsResult};
use crate::{lists_table, ControllerError, Session, SessionView};

verus! {

broadcast use vstd::std_specs::hash::group_hash_axioms;

/// The `ERole` of Core Audio: which default endpoint is meant.
pub type ERole = i32;

/// `eConsole`.
pub const E_CONSOLE: ERole = 0i32;

/// `eMultimedia`.
pub const E_MULTIMEDIA: ERole = 1i32;

/// `eCommunications`.
pub const E_COMMUNICATIONS: ERole = 2i32;

/// The role of the endpoint whose sessions are enumerated.
#[derive(Debug, Clone, Copy, PartialEq, Eq, Structural)]
pub enum DeviceRole {
    Console,
    Multimedia,
    Communications,
}

/// The `ERole` value of a role.
pub open spec fn role_value(r: DeviceRole) -> ERole {
    match r {
        DeviceRole::Console => E_CONSOLE,
        DeviceRole::Multimedia => E_MULTIMEDIA,
        DeviceRole::Communications => E_COMMUNICATIONS,
    }
}

impl DeviceRole {
    /// The `ERole` that Core Audio uses for this role.
    pub fn as_erole(&self) -> (r: ERole)
        ensures
            r == role_value(*self),
    {
        match self {
            DeviceRole::Console => E_CONSOLE,
            DeviceRole::Multimedia => E_MULTIMEDIA,
            DeviceRole::Communications => E_COMMUNICATIONS,
        }
    }
}

/// What an enumeration looks at and which sessions it keeps. The threshold is
/// a whole percentage of full volume.
#[derive(Debug, Clone, Copy, PartialEq, Eq, Structural)]
pub struct EnumeratorConfig {
    pub device_role: DeviceRole,
    pub include_system: bool,
    pub min_volume_percent: u32,
}

impl Default for EnumeratorConfig {
    fn default() -> (c: Self)
        ensures
            c == (EnumeratorConfig {
                device_role: DeviceRole::Console,
                include_system: true,
                min_volume_percent: 0,
            }),
    {
        EnumeratorConfig {
            device_role: DeviceRole::Console,
            include_system: true,
            min_volume_percent: 0,
        }
    }
}

/// Whether an enumeration with `config` keeps `s`: loud enough, and not the
/// system session (process 0) unless system sessions are wanted.
pub open spec fn keeps_session(config: EnumeratorConfig, volume_percent: u32, pid: u32) -> bool {
    &&& volume_percent >= config.min_volume_percent
    &&& (config.include_system || pid != 0)
}

impl EnumeratorConfig {
    /// Accepts a configuration whose threshold lies within 0 to 100 percent.
    pub fn validate(&self) -> (r: WindowsResult<()>)
        ensures
            r == if self.min_volume_percent <= 100 {
                Ok::<(), WindowsError>(())
            } else {
                Err::<(), WindowsError>(WindowsError::InvalidParameter)
            },
    {
        if self.min_volume_percent > 100 {
            return Err(WindowsError::InvalidParameter);
        }
        Ok(())
    }

    /// Whether an enumeration keeps the session `s`.
    pub fn should_include_session(&self, s: &Session) -> (r: bool)
        ensures
            r == keeps_session(*self, s.volume_percent, s.pid),
    {
        if s.volume_percent < self.min_volume_percent {
            return false;
        }
        if !self.include_system && s.pid == 0 {
            return false;
        }
        true
    }
}

/// The sessions of the last enumeration, by id, with the configuration and the
/// name of the endpoint that it used.
pub struct SessionEnumerator {
    config: EnumeratorConfig,
    sessions: HashMap<u32, Session>,
    device_name: String,
}

/// The mathematical content of a [`SessionEnumerator`].
pub struct EnumeratorView {
    pub config: EnumeratorConfig,
    pub sessions: Map<u32, SessionView>,
    pub device_name: Seq<char>,
}

impl View for SessionEnumerator {
    type V = EnumeratorView;

    closed spec fn view(&self) -> EnumeratorView {
        EnumeratorView {
            config: self.config,
            sessions: self.sessions@.map_values(|s: Session| s@),
            device_name: self.device_name@,
        }
    }
}

/// The sessions that an enumeration keeps out of what it found, each under its
/// id, a later one winning; lookups that failed or found nothing are passed over.
pub open spec fn kept_sessions(
    config: EnumeratorConfig,
    found: Seq<Result<Option<SessionView>, WindowsError>>,
) -> Map<u32, SessionView>
    decreases found.len(),
{
    if found.len() == 0 {
        Map::empty()
    } else {
        let before = kept_sessions(config, found.drop_last());
        match found.last() {
            Ok(Some(s)) => if keeps_session(config, s.volume_percent, s.pid) {
                before.insert(s.id, s)
            } else {
                before
            },
            _ => before,
        }
    }
}

/// Every session that an enumeration keeps passes the filter and stands under
/// its own id.
pub proof fn law_kept_sessions_pass_filter(
    config: EnumeratorConfig,
    found: Seq<Result<Option<SessionView>, WindowsError>>,
)
    ensures
        forall|k: u32| #[trigger]
            kept_sessions(config, found).contains_key(k) ==> kept_sessions(config, found)[k].id
                == k && keeps_session(
                config,
                kept_sessions(config, found)[k].volume_percent,
                kept_sessions(config, found)[k].pid,
            ),
    decreases found.len(),
{
    if found.len() > 0 {
        law_kept_sessions_pass_filter(config, found.drop_last());
    }
}

/// A found session that passes the filter is kept, whatever its mute state or
/// other fields, unless a later found session with the same id passes it too:
/// the last passing session of each id stands under that id.
pub proof fn law_passing_session_is_kept(
    config: EnumeratorConfig,
    found: Seq<Result<Option<SessionView>, WindowsError>>,
    i: int,
    s: SessionView,
)
    requires
        0 <= i < found.len(),
        found[i] == Ok::<Option<SessionView>, WindowsError>(Some(s)),
        keeps_session(config, s.volume_percent, s.pid),
        forall|j: int|
            i < j < found.len() ==> !(#[trigger] found[j] matches Ok(Some(t)) && t.id == s.id
                && keeps_session(config, t.volume_percent, t.pid)),
    ensures
        kept_sessions(config, found).contains_key(s.id),
        kept_sessions(config, found)[s.id] == s,
    decreases found.len(),
{
    if i < found.len() - 1 {
        let p = found.drop_last();
        assert(p[i] == found[i]);
        assert forall|j: int|
            i < j < p.len() implies !(#[trigger] p[j] matches Ok(Some(t)) && t.id == s.id
                && keeps_session(config, t.volume_percent, t.pid)) by {
            assert(p[j] == found[j]);
        }
        law_passing_session_is_kept(config, p, i, s);
        assert(found.last() == found[found.len() - 1]);
    }
}

/// The positions of the lookups that failed, in order.
pub open spec fn failed_lookups(found: Seq<Result<Option<SessionView>, WindowsError>>) -> Seq<usize>
    decreases found.len(),
{
    if found.len() == 0 {
        Seq::empty()
    } else {
        let before = failed_lookups(found.drop_last());
        if found.last() is Err {
            before.push((found.len() - 1) as usize)
        } else {
            before
        }
    }
}

/// The view of a lookup's outcome.
pub open spec fn lookup_view(r: Result<Option<Session>, WindowsError>) -> Result<Option<SessionView>, WindowsError> {
    match r {
        Ok(Some(s)) => Ok(Some(s@)),
        Ok(None) => Ok(None),
        Err(e) => Err(e),
    }
}

impl SessionEnumerator {
    #[verifier::type_invariant]
    spec fn keyed_by_id(self) -> bool {
        forall|k: u32| #[trigger] self.sessions@.contains_key(k) ==> self.sessions@[k].id == k
    }

    /// An enumerator with the default configuration and no sessions.
    pub fn new() -> (r: WindowsResult<Self>)
        ensures
            r matches Ok(e) && e@.config == (EnumeratorConfig {
                device_role: DeviceRole::Console,
                include_system: true,
                min_volume_percent: 0,
            }) && e@.sessions == Map::<u32, SessionView>::empty() && e@.device_name
                == Seq::<char>::empty(),
    {
        Self::with_config(EnumeratorConfig::default())
    }

    /// An enumerator with no sessions; `InvalidParameter` for a threshold above 100 percent.
    pub fn with_config(config: EnumeratorConfig) -> (r: WindowsResult<Self>)
        ensures
            config.min_volume_percent > 100 ==> r == Err::<Self, WindowsError>(
                WindowsError::InvalidParameter,
            ),
            config.min_volume_percent <= 100 ==> (r matches Ok(e) && e@.config == config
                && e@.sessions == Map::<u32, SessionView>::empty() && e@.device_name
                == Seq::<char>::empty()),
    {
        if config.min_volume_percent > 100 {
            return Err(WindowsError::InvalidParameter);
        }
        let e = SessionEnumerator { config, sessions: HashMap::new(), device_name: String::new() };
        assert(e@.sessions =~= Map::<u32, SessionView>::empty());
        Ok(e)
    }

    /// The name of the endpoint of the last enumeration.
    pub fn device_name(&self) -> (r: &str)
        ensures
            r@ == self@.device_name,
    {
        self.device_name.as_str()
    }

    /// Records the name of the endpoint that an enumeration found.
    pub fn set_device_name(&mut self, name: String)
        ensures
            final(self)@ == (EnumeratorView { device_name: name@, ..old(self)@ }),
    {
        proof {
            use_type_invariant(&*self);
        }
        self.device_name = name;
    }

    /// The number of sessions.
    pub fn len(&self) -> (r: usize)
        ensures
            r == self@.sessions.dom().len(),
    {
        assert(self@.sessions.dom() =~= self.sessions@.dom());
        self.sessions.len()
    }

    /// Whether there are no sessions.
    pub fn is_empty(&self) -> (r: bool)
        ensures
            r == (self@.sessions.dom().len() == 0),
    {
        assert(self@.sessions.dom() =~= self.sessions@.dom());
        self.sessions.is_empty()
    }

    /// Forgets every session.
    pub fn clear(&mut self)
        ensures
            final(self)@ == (EnumeratorView { sessions: Map::empty(), ..old(self)@ }),
    {
        let mut table: HashMap<u32, Session> = HashMap::new();
        std::mem::swap(&mut table, &mut self.sessions);
        assert(self@.sessions =~= Map::<u32, SessionView>::empty());
    }

    /// The session with id `id`, if there is one.
    pub fn get_session(&self, id: u32) -> (r: Option<Session>)
        ensures
            r matches Some(s) ==> self@.sessions.contains_key(id) && s@ == self@.sessions[id],
            r is None ==> !self@.sessions.contains_key(id),
    {
        match self.sessions.get(&id) {
            Some(s) => Some(s.clone()),
            None => None,
        }
    }

    /// The session that a change of volume or mute state is for: `InvalidParameter`
    /// for id 0, `NotFound` for an id without a session.
    pub fn target(&self, id: u32) -> (r: Result<Session, ControllerError>)
        ensures
            id == 0 ==> r == Err::<Session, ControllerError>(ControllerError::InvalidParameter),
            id != 0 && !self@.sessions.contains_key(id) ==> r == Err::<Session, ControllerError>(
                ControllerError::NotFound,
            ),
            id != 0 && self@.sessions.contains_key(id) ==> (r matches Ok(s) && s@
                == self@.sessions[id]),
    {
        if id == 0 {
            return Err(ControllerError::InvalidParameter);
        }
        match self.get_session(id) {
            Some(s) => Ok(s),
            None => Err(ControllerError::NotFound),
        }
    }

    /// The sessions, each once, in no particular order.
    pub fn sessions(&self) -> (r: Vec<Session>)
        ensures
            lists_table(r@, self@.sessions),
    {
        proof {
            use_type_invariant(self);
        }
        let mut r: Vec<Session> = Vec::new();
        let ghost keys = vstd::std_specs::hash::spec_keys_iter(&self.sessions).remaining();
        proof {
            assert forall|i: int| 0 <= i < keys.len() implies self.sessions@.contains_key(
                *#[trigger] keys[i],
            ) by {
                assert(keys.unref()[i] == *keys[i]);
                assert(keys.unref().to_set().contains(keys.unref()[i]));
            }
        }
        for k in it: self.sessions.keys()
            invariant
                it.seq() == keys,
                r.len() == it.index(),
                keys.no_duplicates(),
                keys.len() == self.sessions@.dom().len(),
                forall|i: int| 0 <= i < keys.len() ==> self.sessions@.contains_key(*#[trigger] keys[i]),
                forall|k: u32| #[trigger]
                    self.sessions@.contains_key(k) ==> self.sessions@[k].id == k,
                forall|i: int| 0 <= i < r.len() ==> r@[i].id == *keys[i],
                forall|i: int| 0 <= i < r.len() ==> #[trigger] self.sessions@.contains_key(r@[i].id),
                forall|i: int| 0 <= i < r.len() ==> self.sessions@[#[trigger] r@[i].id] == r@[i],
        {
            assert(self.sessions@.contains_key(*k));
            match self.sessions.get(k) {
                Some(s) => {
                    r.push(s.clone());
                },
                None => {},
            }
        }
        proof {
            assert(self@.sessions.dom() =~= self.sessions@.dom());
            assert forall|i: int, j: int| 0 <= i < j < r.len() implies r@[i].id != r@[j].id by {
                assert(keys[i] != keys[j]);
            }
            assert forall|k: u32| #[trigger] self.sessions@.contains_key(k) implies exists|i: int|
                0 <= i < r.len() && r@[i].id == k by {
                assert(keys.unref().to_set().contains(k));
                assert(keys.unref().contains(k));
                let i = choose|i: int| 0 <= i < keys.unref().len() && keys.unref()[i] == k;
                assert(keys.unref()[i] == *keys[i]);
                assert(r@[i].id == k);
            }
        }
        r
    }

    /// Hands out one session, any one, and forgets them all; `None` when there are none.
    pub fn next_session(&mut self) -> (r: Option<Session>)
        ensures
            r is None <==> old(self)@.sessions.dom().len() == 0,
            r is None ==> final(self)@ == old(self)@,
            r matches Some(s) ==> old(self)@.sessions.contains_key(s.id) && old(self)@.sessions[s.id]
                == s@,
            final(self)@ == (EnumeratorView { sessions: Map::empty(), ..old(self)@ }),
    {
        proof {
            if old(self)@.sessions.dom().len() == 0 {
                assert(old(self)@.sessions.dom() =~= old(self).sessions@.dom());
                old(self)@.sessions.dom().lemma_len0_is_empty();
                assert(old(self)@.sessions =~= Map::<u32, SessionView>::empty());
            }
        }
        let all = self.sessions();
        let first = if all.len() == 0 {
            None
        } else {
            Some(all[0].clone())
        };
        self.clear();
        first
    }

    /// Takes the outcome of an enumeration of the endpoint `device_name`: the
    /// sessions kept replace the old ones. Returns their number and the positions
    /// of the lookups that failed.
    pub fn record_discovery(
        &mut self,
        device_name: String,
        found: Vec<Result<Option<Session>, WindowsError>>,
    ) -> (r: (usize, Vec<usize>))
        ensures
            final(self)@ == (EnumeratorView {
                sessions: kept_sessions(old(self)@.config, found@.map_values(|x| lookup_view(x))),
                device_name: device_name@,
                ..old(self)@
            }),
            r.0 == final(self)@.sessions.dom().len(),
            r.1@ == failed_lookups(found@.map_values(|x| lookup_view(x))),
    {
        let ghost seen = found@.map_values(|x| lookup_view(x));
        let mut table: HashMap<u32, Session> = HashMap::new();
        let mut failures: Vec<usize> = Vec::new();
        let mut i: usize = 0;
        assert(table@.map_values(|s: Session| s@) =~= kept_sessions(self.config, seen.take(0)));
        assert(failures@ =~= failed_lookups(seen.take(0)));
        while i < found.len()
            invariant
                i <= found.len(),
                seen == found@.map_values(|x| lookup_view(x)),
                table@.map_values(|s: Session| s@) == kept_sessions(self.config, seen.take(i as int)),
                failures@ == failed_lookups(seen.take(i as int)),
                forall|k: u32| #[trigger] table@.contains_key(k) ==> table@[k].id == k,
            decreases found.len() - i,
        {
            proof {
                assert(seen.take(i + 1).drop_last() =~= seen.take(i as int));
                assert(seen.take(i + 1).last() == lookup_view(found@[i as int]));
            }
            match &found[i] {
                Ok(Some(s)) => {
                    if self.config.should_include_session(s) {
                        let kept = s.clone();
                        let ghost before = table@;
                        table.insert(kept.id, kept);
                        assert(table@.map_values(|s: Session| s@) =~= before.map_values(
                            |s: Session| s@,
                        ).insert(kept@.id, kept@));
                    }
                },
                Ok(None) => {},
                Err(_) => {
                    failures.push(i);
                },
            }
            i = i + 1;
        }
        assert(seen.take(i as int) =~= seen);
        self.sessions = table;
        self.device_name = device_name;
        let n = self.len();
        (n, failures)
    }
}

impl Default for SessionEnumerator {
    fn default() -> (e: Self)
        ensures
            e@.config == (EnumeratorConfig {
                device_role: DeviceRole::Console,
                include_system: true,
                min_volume_percent: 0,
            }),
            e@.sessions == Map::<u32, SessionView>::empty(),
    {
        let config = EnumeratorConfig::default();
        let e = SessionEnumerator { config, sessions: HashMap::new(), device_name: String::new() };
        assert(e@.sessions =~= Map::<u32, SessionView>::empty());
        e
    }
}

} // verus!
