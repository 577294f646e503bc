//! The PulseAudio back end: the reading of `pactl list sink-inputs`, the table
//! of known sessions, and the `pactl` commands that change a session.
use std::collections::HashMap;
use vstd::prelude::*;
use vstd::std_specs::iter::IteratorSpec;

use crate::text::{
    index_of, lemma_index_of_bounds, lemma_index_of_is,
    after_last_part, after_prefix, before_first, chars_of, count_char, count_in, decimal_string,
    decimal_text, find_after_last, find_char, is_yes, is_yes_at, lines, parse_u32, parse_u32_at,
    parse_u32_or_zero, starts_with, starts_with_at, trim, trim_bounds, trim_quotes,
};
use crate::{lists_table, ControllerError, Session, SessionView};

verus! {

broadcast use vstd::std_specs::hash::group_hash_axioms;

// ---------------------------------------------------------------------------
// The listing format
// ---------------------------------------------------------------------------

/// The state of a reading after some lines of a listing.
pub struct ParseState {
    pub sessions: Seq<SessionView>,
    pub current: SessionView,
    pub in_session: bool,
}

/// A session as it stands when its header line is read.
pub open spec fn fresh_session(id: u32) -> SessionView {
    SessionView {
        id,
        name: Seq::empty(),
        pid: 0,
        volume_percent: 100,
        left_percent: 100,
        right_percent: 100,
        mute: false,
        device: None,
        channel_count: 0,
    }
}

/// The volume that a `volume:` line gives: the number before the first `%` of the
/// first channel, after its last `/`.
pub open spec fn line_volume(line: Seq<char>) -> Option<u32> {
    parse_u32(trim(after_last_part(before_first(before_first(line, ','), '%'), '/')))
}

/// The number of channels that a `volume:` line lists, as a `u32`.
pub open spec fn line_channels(line: Seq<char>) -> u32 {
    ((count_char(line, ',') + 1) % 0x1_0000_0000) as u32
}

/// What a trimmed line of a session's block changes in that session.
pub open spec fn session_line(cur: SessionView, line: Seq<char>) -> SessionView {
    if starts_with(line, "application.name ="@) {
        SessionView { name: trim_quotes(after_prefix(line, "application.name ="@)), ..cur }
    } else if starts_with(line, "application.process.id ="@) {
        SessionView {
            pid: parse_u32_or_zero(trim(after_prefix(line, "application.process.id ="@))),
            ..cur
        }
    } else if starts_with(line, "sink ="@) {
        SessionView { device: Some(trim(after_prefix(line, "sink ="@))), ..cur }
    } else if starts_with(line, "volume:"@) {
        match line_volume(line) {
            Some(v) => SessionView {
                channel_count: line_channels(line),
                volume_percent: v,
                left_percent: v,
                right_percent: v,
                ..cur
            },
            None => SessionView { channel_count: line_channels(line), ..cur },
        }
    } else if starts_with(line, "Mute:"@) {
        SessionView { mute: is_yes(trim(after_prefix(line, "Mute:"@))), ..cur }
    } else {
        cur
    }
}

/// The sessions read so far, with the open one closed when it has an id.
pub open spec fn closed_sessions(st: ParseState) -> Seq<SessionView> {
    if st.in_session && st.current.id != 0 {
        st.sessions.push(st.current)
    } else {
        st.sessions
    }
}

/// The effect of one line of a listing.
pub open spec fn parse_step(st: ParseState, raw: Seq<char>) -> ParseState {
    let line = trim(raw);
    if starts_with(line, "Sink Input #"@) {
        ParseState {
            sessions: closed_sessions(st),
            current: fresh_session(parse_u32_or_zero(after_prefix(line, "Sink Input #"@))),
            in_session: true,
        }
    } else if st.in_session {
        ParseState { current: session_line(st.current, line), ..st }
    } else {
        st
    }
}

/// The state after reading `ls` from the start.
pub open spec fn parse_lines(ls: Seq<Seq<char>>) -> ParseState
    decreases ls.len(),
{
    if ls.len() == 0 {
        ParseState { sessions: Seq::empty(), current: fresh_session(0), in_session: false }
    } else {
        parse_step(parse_lines(ls.drop_last()), ls.last())
    }
}

/// The sessions that a `pactl list sink-inputs` listing describes, in order.
pub open spec fn listed_sessions(text: Seq<char>) -> Seq<SessionView> {
    closed_sessions(parse_lines(lines(text)))
}

/// The table of a listing: each session under its id, a later block winning.
pub open spec fn session_table(s: Seq<SessionView>) -> Map<u32, SessionView>
    decreases s.len(),
{
    if s.len() == 0 {
        Map::empty()
    } else {
        session_table(s.drop_last()).insert(s.last().id, s.last())
    }
}

/// The line prefixes that the listing format uses.
struct Keywords {
    header: Vec<char>,
    name: Vec<char>,
    pid: Vec<char>,
    sink: Vec<char>,
    volume: Vec<char>,
    mute: Vec<char>,
}

impl Keywords {
    spec fn valid(&self) -> bool {
        &&& self.header@ == "Sink Input #"@
        &&& self.name@ == "application.name ="@
        &&& self.pid@ == "application.process.id ="@
        &&& self.sink@ == "sink ="@
        &&& self.volume@ == "volume:"@
        &&& self.mute@ == "Mute:"@
    }

    fn new() -> (k: Keywords)
        ensures
            k.valid(),
    {
        Keywords {
            header: chars_of("Sink Input #"),
            name: chars_of("application.name ="),
            pid: chars_of("application.process.id ="),
            sink: chars_of("sink ="),
            volume: chars_of("volume:"),
            mute: chars_of("Mute:"),
        }
    }
}

fn new_session(id: u32) -> (s: Session)
    ensures
        s@ == fresh_session(id),
{
    Session {
        id,
        name: String::new(),
        pid: 0,
        volume_percent: 100,
        left_percent: 100,
        right_percent: 100,
        mute: false,
        device: None,
        channel_count: 0,
    }
}

/// The text of `v[start..end]`, taken from `text` whose characters `v` holds.
fn text_between(text: &str, v: &Vec<char>, start: usize, end: usize) -> (s: String)
    requires
        v@ == text@,
        start <= end <= v.len(),
    ensures
        s@ == v@.subrange(start as int, end as int),
{
    String::from_str(text.substring_char(start, end))
}

/// The volume that the `volume:` line `v[start..end]` gives.
fn volume_at(v: &Vec<char>, start: usize, end: usize) -> (r: Option<u32>)
    requires
        start <= end <= v.len(),
    ensures
        r == line_volume(v@.subrange(start as int, end as int)),
{
    let ghost line = v@.subrange(start as int, end as int);
    let comma = find_char(v, start, end, ',');
    let ghost first = before_first(line, ',');
    assert(first =~= v@.subrange(start as int, comma as int));
    let percent = find_char(v, start, comma, '%');
    let ghost amount = before_first(first, '%');
    assert(amount =~= v@.subrange(start as int, percent as int));
    let slash = find_after_last(v, start, percent, '/');
    let ghost tail = after_last_part(amount, '/');
    assert(tail =~= v@.subrange(slash as int, percent as int));
    let (a, b) = trim_bounds(v, slash, percent, false);
    parse_u32_at(v, a, b)
}

/// Applies the trimmed line `v[a..b]` of `text` to the reading state.
fn read_line(
    text: &str,
    v: &Vec<char>,
    a: usize,
    b: usize,
    kw: &Keywords,
    sessions: &mut Vec<Session>,
    current: &mut Session,
    in_session: &mut bool,
)
    requires
        v@ == text@,
        a <= b <= v.len(),
        kw.valid(),
    ensures
        ({
            let before = ParseState {
                sessions: old(sessions)@.map_values(|s: Session| s@),
                current: old(current)@,
                in_session: *old(in_session),
            };
            let line = v@.subrange(a as int, b as int);
            let after = if starts_with(line, "Sink Input #"@) {
                ParseState {
                    sessions: closed_sessions(before),
                    current: fresh_session(
                        parse_u32_or_zero(after_prefix(line, "Sink Input #"@)),
                    ),
                    in_session: true,
                }
            } else if before.in_session {
                ParseState { current: session_line(before.current, line), ..before }
            } else {
                before
            };
            &&& final(sessions)@.map_values(|s: Session| s@) == after.sessions
            &&& final(current)@ == after.current
            &&& *final(in_session) == after.in_session
        }),
{
    let ghost line = v@.subrange(a as int, b as int);
    if starts_with_at(v, a, b, &kw.header) {
        let ghost old_sessions = sessions@;
        if *in_session && current.id != 0 {
            let done = current.clone();
            sessions.push(done);
            assert(sessions@.map_values(|s: Session| s@) =~= old_sessions.map_values(
                |s: Session| s@,
            ).push(old(current)@));
        }
        let start = a + kw.header.len();
        assert(after_prefix(line, "Sink Input #"@) =~= v@.subrange(start as int, b as int));
        let id = match parse_u32_at(v, start, b) {
            Some(n) => n,
            None => 0,
        };
        *current = new_session(id);
        *in_session = true;
    } else if *in_session {
        if starts_with_at(v, a, b, &kw.name) {
            let start = a + kw.name.len();
            assert(after_prefix(line, "application.name ="@) =~= v@.subrange(
                start as int,
                b as int,
            ));
            let (x, y) = trim_bounds(v, start, b, true);
            current.name = text_between(text, v, x, y);
        } else if starts_with_at(v, a, b, &kw.pid) {
            let start = a + kw.pid.len();
            assert(after_prefix(line, "application.process.id ="@) =~= v@.subrange(
                start as int,
                b as int,
            ));
            let (x, y) = trim_bounds(v, start, b, false);
            current.pid = match parse_u32_at(v, x, y) {
                Some(n) => n,
                None => 0,
            };
        } else if starts_with_at(v, a, b, &kw.sink) {
            let start = a + kw.sink.len();
            assert(after_prefix(line, "sink ="@) =~= v@.subrange(start as int, b as int));
            let (x, y) = trim_bounds(v, start, b, false);
            current.device = Some(text_between(text, v, x, y));
        } else if starts_with_at(v, a, b, &kw.volume) {
            let commas = count_in(v, a, b, ',');
            let channels: u64 = ((commas as u64 % 0x1_0000_0000) + 1) % 0x1_0000_0000;
            assert(channels == (count_char(line, ',') + 1) % 0x1_0000_0000) by (nonlinear_arith)
                requires
                    commas == count_char(line, ','),
                    channels == ((commas as u64 % 0x1_0000_0000) + 1) % 0x1_0000_0000,
            ;
            current.channel_count = channels as u32;
            match volume_at(v, a, b) {
                Some(level) => {
                    current.volume_percent = level;
                    current.left_percent = level;
                    current.right_percent = level;
                },
                None => {},
            }
        } else if starts_with_at(v, a, b, &kw.mute) {
            let start = a + kw.mute.len();
            assert(after_prefix(line, "Mute:"@) =~= v@.subrange(start as int, b as int));
            let (x, y) = trim_bounds(v, start, b, false);
            current.mute = is_yes_at(v, x, y);
        }
    }
}

/// Reads the sessions out of the text of `pactl list sink-inputs`: a session
/// begins at each `Sink Input #<id>` line and is kept when its id is not 0.
pub fn parse_sessions(output: &str) -> (r: Vec<Session>)
    ensures
        r@.map_values(|s: Session| s@) == listed_sessions(output@),
{
    let v = chars_of(output);
    let kw = Keywords::new();
    let n = v.len();
    let mut sessions: Vec<Session> = Vec::new();
    let mut current = new_session(0);
    let mut in_session = false;
    let mut pos: usize = 0;
    let ghost mut done: Seq<Seq<char>> = Seq::empty();
    assert(v@.subrange(0, n as int) =~= v@);
    assert(sessions@.map_values(|s: Session| s@) =~= Seq::<SessionView>::empty());
    while pos < n
        invariant
            v@ == output@,
            n == v.len(),
            kw.valid(),
            pos <= n,
            lines(v@) == done + lines(v@.subrange(pos as int, n as int)),
            parse_lines(done) == (ParseState {
                sessions: sessions@.map_values(|s: Session| s@),
                current: current@,
                in_session: in_session,
            }),
        decreases n - pos,
    {
        let nl = find_char(&v, pos, n, '\n');
        let ghost rest = v@.subrange(pos as int, n as int);
        let end = if nl < n && nl > pos && v[nl - 1] == '\r' {
            nl - 1
        } else {
            nl
        };
        let ghost raw = v@.subrange(pos as int, end as int);
        proof {
            if nl < n {
                assert(rest.subrange(0, nl - pos) =~= v@.subrange(pos as int, nl as int));
                assert(rest.subrange(nl - pos + 1, rest.len() as int) =~= v@.subrange(
                    nl + 1,
                    n as int,
                ));
                if nl > pos && v@[nl - 1] == '\r' {
                    assert(v@.subrange(pos as int, nl as int).drop_last() =~= raw);
                }
                assert(lines(rest) == seq![raw] + lines(v@.subrange(nl + 1, n as int)));
            } else {
                assert(rest =~= raw);
                assert(lines(rest) == seq![raw]);
            }
        }
        let (a, b) = trim_bounds(&v, pos, end, false);
        read_line(output, &v, a, b, &kw, &mut sessions, &mut current, &mut in_session);
        proof {
            let next = done.push(raw);
            assert(next.drop_last() =~= done);
            done = next;
        }
        pos = if nl < n {
            nl + 1
        } else {
            n
        };
        proof {
            if nl >= n {
                assert(lines(v@.subrange(pos as int, n as int)) =~= Seq::<Seq<char>>::empty());
            }
            assert(lines(v@) =~= done + lines(v@.subrange(pos as int, n as int)));
        }
    }
    proof {
        assert(v@.subrange(pos as int, n as int) =~= Seq::<char>::empty());
        assert(done =~= lines(v@));
    }
    if in_session && current.id != 0 {
        let ghost before = sessions@;
        sessions.push(current);
        assert(sessions@.map_values(|s: Session| s@) =~= before.map_values(|s: Session| s@).push(
            current@,
        ));
    }
    sessions
}

// ---------------------------------------------------------------------------
// Every session read from a listing has an id
// ---------------------------------------------------------------------------

/// The sessions that a reading has closed all have a nonzero id.
pub proof fn lemma_parse_lines_ids(ls: Seq<Seq<char>>)
    ensures
        forall|i: int|
            0 <= i < parse_lines(ls).sessions.len() ==> #[trigger] parse_lines(ls).sessions[i].id
                != 0,
    decreases ls.len(),
{
    if ls.len() > 0 {
        lemma_parse_lines_ids(ls.drop_last());
    }
}

/// Every session read from a listing has a nonzero id.
pub proof fn lemma_listed_ids_nonzero(text: Seq<char>)
    ensures
        forall|i: int|
            0 <= i < listed_sessions(text).len() ==> #[trigger] listed_sessions(text)[i].id != 0,
{
    lemma_parse_lines_ids(lines(text));
}

/// The table of sessions files each under its own id, and no session under 0.
pub proof fn lemma_session_table_keys(s: Seq<SessionView>)
    requires
        forall|i: int| 0 <= i < s.len() ==> #[trigger] s[i].id != 0,
    ensures
        forall|k: u32| #[trigger]
            session_table(s).contains_key(k) ==> k != 0 && session_table(s)[k].id == k,
    decreases s.len(),
{
    if s.len() > 0 {
        lemma_session_table_keys(s.drop_last());
    }
}

/// No later position of `s` holds a session with the id of position `i`.
pub open spec fn last_with_id(s: Seq<SessionView>, i: int) -> bool {
    forall|j: int| i < j < s.len() ==> s[j].id != s[i].id
}

/// Refreshing from a listing gives back, for each id of the listing, the last
/// session with that id, and nothing else; no earlier session survives, since
/// the table depends on the listing alone.
pub proof fn law_table_holds_listing(s: Seq<SessionView>)
    ensures
        forall|i: int| 0 <= i < s.len() ==> session_table(s).contains_key(#[trigger] s[i].id),
        forall|k: u32| #[trigger]
            session_table(s).contains_key(k) ==> exists|i: int| 0 <= i < s.len() && s[i].id == k,
        forall|i: int|
            0 <= i < s.len() && #[trigger] last_with_id(s, i) ==> session_table(s)[s[i].id] == s[i],
    decreases s.len(),
{
    if s.len() > 0 {
        let p = s.drop_last();
        law_table_holds_listing(p);
        assert forall|i: int| 0 <= i < s.len() implies session_table(s).contains_key(
            #[trigger] s[i].id,
        ) by {
            if i < s.len() - 1 {
                assert(p[i] == s[i]);
            }
        }
        assert forall|k: u32| #[trigger] session_table(s).contains_key(k) implies exists|i: int|
            0 <= i < s.len() && s[i].id == k by {
            if k == s.last().id {
                assert(s[s.len() - 1].id == k);
            } else {
                assert(session_table(p).contains_key(k));
                let i = choose|i: int| 0 <= i < p.len() && p[i].id == k;
                assert(s[i] == p[i]);
            }
        }
        assert forall|i: int| 0 <= i < s.len() && #[trigger] last_with_id(s, i) implies session_table(
            s,
        )[s[i].id] == s[i] by {
            if i < s.len() - 1 {
                assert(p[i] == s[i]);
                assert(s[s.len() - 1].id != s[i].id);
                assert forall|j: int| i < j < p.len() implies p[j].id != p[i].id by {
                    assert(p[j] == s[j]);
                }
                assert(last_with_id(p, i));
            }
        }
    }
}

/// The reading state before any line.
pub open spec fn initial_state() -> ParseState {
    ParseState { sessions: Seq::empty(), current: fresh_session(0), in_session: false }
}

/// The state after reading `ls`, starting from `st`.
pub open spec fn run_lines(st: ParseState, ls: Seq<Seq<char>>) -> ParseState
    decreases ls.len(),
{
    if ls.len() == 0 {
        st
    } else {
        parse_step(run_lines(st, ls.drop_last()), ls.last())
    }
}

proof fn lemma_parse_lines_runs(ls: Seq<Seq<char>>)
    ensures
        parse_lines(ls) == run_lines(initial_state(), ls),
    decreases ls.len(),
{
    if ls.len() > 0 {
        lemma_parse_lines_runs(ls.drop_last());
    }
}

proof fn lemma_run_append(st: ParseState, l1: Seq<Seq<char>>, l2: Seq<Seq<char>>)
    ensures
        run_lines(st, l1 + l2) == run_lines(run_lines(st, l1), l2),
    decreases l2.len(),
{
    if l2.len() == 0 {
        assert(l1 + l2 =~= l1);
    } else {
        lemma_run_append(st, l1, l2.drop_last());
        assert((l1 + l2).drop_last() =~= l1 + l2.drop_last());
        assert((l1 + l2).last() == l2.last());
    }
}

/// Two readings that differ only by sessions closed before stay so.
proof fn lemma_run_prefix(s: ParseState, t: ParseState, pre: Seq<SessionView>, ls: Seq<Seq<char>>)
    requires
        s.current == t.current,
        s.in_session == t.in_session,
        s.sessions == pre + t.sessions,
    ensures
        run_lines(s, ls).current == run_lines(t, ls).current,
        run_lines(s, ls).in_session == run_lines(t, ls).in_session,
        run_lines(s, ls).sessions == pre + run_lines(t, ls).sessions,
    decreases ls.len(),
{
    if ls.len() > 0 {
        lemma_run_prefix(s, t, pre, ls.drop_last());
        let a = run_lines(s, ls.drop_last());
        let b = run_lines(t, ls.drop_last());
        assert(closed_sessions(a) =~= pre + closed_sessions(b));
    }
}

proof fn lemma_lines_append(a: Seq<char>, b: Seq<char>)
    requires
        a.len() == 0 || a.last() == '\n',
    ensures
        lines(a + b) == lines(a) + lines(b),
    decreases a.len(),
{
    if a.len() == 0 {
        assert(a + b =~= b);
        assert(lines(a) =~= Seq::<Seq<char>>::empty());
        assert(lines(a) + lines(b) =~= lines(b));
    } else {
        lemma_index_of_bounds(a, '\n');
        let i = index_of(a, '\n');
        if i == a.len() {
            assert(a[a.len() - 1] == '\n');
        }
        let ab = a + b;
        assert forall|j: int| 0 <= j < i implies ab[j] != '\n' by {
            assert(ab[j] == a[j]);
        }
        lemma_index_of_is(ab, '\n', i);
        let rest = a.subrange(i + 1, a.len() as int);
        assert(ab.subrange(0, i) =~= a.subrange(0, i));
        assert(ab.subrange(i + 1, ab.len() as int) =~= rest + b);
        if rest.len() > 0 {
            assert(rest.last() == a.last());
        }
        lemma_lines_append(rest, b);
        assert(lines(ab) =~= lines(a) + lines(b));
    }
}

/// Reading a listing that runs on into another listing, which starts with a
/// session header, gives the sessions of the first and then those of the
/// second. So lines before the first header never change the result.
pub proof fn law_parse_concat(a: Seq<char>, b: Seq<char>)
    requires
        a.len() == 0 || a.last() == '\n',
        lines(b).len() > 0,
        starts_with(trim(lines(b)[0]), "Sink Input #"@),
    ensures
        listed_sessions(a + b) == listed_sessions(a) + listed_sessions(b),
{
    let la = lines(a);
    let lb = lines(b);
    lemma_lines_append(a, b);
    lemma_parse_lines_runs(la + lb);
    lemma_parse_lines_runs(la);
    lemma_parse_lines_runs(lb);
    lemma_run_append(initial_state(), la, lb);
    let sa = run_lines(initial_state(), la);
    let h = seq![lb[0]];
    let rest = lb.subrange(1, lb.len() as int);
    assert(lb =~= h + rest);
    lemma_run_append(sa, h, rest);
    lemma_run_append(initial_state(), h, rest);
    assert(h.drop_last() =~= Seq::<Seq<char>>::empty());
    assert(h.last() == lb[0]);
    assert(run_lines(sa, h.drop_last()) == sa);
    assert(run_lines(initial_state(), h.drop_last()) == initial_state());
    let s = run_lines(sa, h);
    let t = run_lines(initial_state(), h);
    assert(s == parse_step(sa, lb[0]));
    assert(t == parse_step(initial_state(), lb[0]));
    assert(s.sessions =~= listed_sessions(a) + t.sessions);
    lemma_run_prefix(s, t, listed_sessions(a), rest);
    let fs = run_lines(s, rest);
    let ft = run_lines(t, rest);
    assert(closed_sessions(fs) =~= listed_sessions(a) + closed_sessions(ft));
}

// ---------------------------------------------------------------------------
// Commands
// ---------------------------------------------------------------------------

/// The arguments of one `pactl` invocation.
pub struct PactlCommand {
    pub args: Vec<String>,
}

impl View for PactlCommand {
    type V = Seq<Seq<char>>;

    open spec fn view(&self) -> Seq<Seq<char>> {
        self.args@.map_values(|a: String| a@)
    }
}

/// `pactl list sink-inputs`.
pub open spec fn list_args() -> Seq<Seq<char>> {
    seq!["list"@, "sink-inputs"@]
}

/// `pactl set-sink-input-volume <id> <level>%`.
pub open spec fn volume_args(id: u32, level: u32) -> Seq<Seq<char>> {
    seq!["set-sink-input-volume"@, decimal_text(id as nat), decimal_text(level as nat) + "%"@]
}

/// `pactl set-sink-input-mute <id> 1|0`.
pub open spec fn mute_args(id: u32, mute: bool) -> Seq<Seq<char>> {
    seq![
        "set-sink-input-mute"@,
        decimal_text(id as nat),
        if mute {
            "1"@
        } else {
            "0"@
        },
    ]
}

/// The table once `pactl` has set the mute state of session `id`.
pub open spec fn table_with_mute(t: Map<u32, SessionView>, id: u32, mute: bool) -> Map<u32, SessionView> {
    if t.contains_key(id) {
        t.insert(id, SessionView { mute, ..t[id] })
    } else {
        t
    }
}

/// The table once `pactl` has set session `id` to `level`.
pub open spec fn table_with_volume(t: Map<u32, SessionView>, id: u32, level: u32) -> Map<u32, SessionView> {
    if t.contains_key(id) {
        t.insert(
            id,
            SessionView { volume_percent: level, left_percent: level, right_percent: level, ..t[id] },
        )
    } else {
        t
    }
}

/// Whether the table already shows session `id` in the mute state `mute`.
pub open spec fn shows_mute(t: Map<u32, SessionView>, id: u32, mute: bool) -> bool {
    t.contains_key(id) && t[id].mute == mute
}

fn command_of(args: Vec<String>) -> (c: PactlCommand)
    ensures
        c.args == args,
{
    PactlCommand { args }
}

// ---------------------------------------------------------------------------
// The controller
// ---------------------------------------------------------------------------

/// The PulseAudio controller: the sessions of the last listing, by id.
pub struct LinuxController {
    sessions: HashMap<u32, Session>,
}

impl View for LinuxController {
    type V = Map<u32, SessionView>;

    closed spec fn view(&self) -> Map<u32, SessionView> {
        self.sessions@.map_values(|s: Session| s@)
    }
}

impl LinuxController {
    #[verifier::type_invariant]
    spec fn keyed_by_id(self) -> bool {
        forall|k: u32| #[trigger]
            self.sessions@.contains_key(k) ==> k != 0 && self.sessions@[k].id == k
    }

    /// A controller with no sessions, once `pactl` was found; a platform error
    /// that says how to install it when it was not.
    pub fn new_checked(pactl_available: bool) -> (r: Result<Self, ControllerError>)
        ensures
            pactl_available ==> (r matches Ok(c) && c@ == Map::<u32, SessionView>::empty()),
            !pactl_available ==> (r matches Err(ControllerError::PlatformError(m))
                && m@ == "pactl not found. Install pulseaudio-utils"@),
    {
        if pactl_available {
            let c = LinuxController { sessions: HashMap::new() };
            assert(c@ =~= Map::<u32, SessionView>::empty());
            Ok(c)
        } else {
            Err(ControllerError::PlatformError(String::from_str("pactl not found. Install pulseaudio-utils")))
        }
    }

    /// The command whose output `refresh_from_output` reads.
    pub fn list_command() -> (c: PactlCommand)
        ensures
            c@ == list_args(),
    {
        let mut args: Vec<String> = Vec::new();
        args.push(String::from_str("list"));
        args.push(String::from_str("sink-inputs"));
        let c = command_of(args);
        assert(c@ =~= list_args());
        c
    }

    /// Replaces the table with the sessions of a `pactl list sink-inputs` listing.
    pub fn refresh_from_output(&mut self, output: &str)
        ensures
            final(self)@ == session_table(listed_sessions(output@)),
    {
        let parsed = parse_sessions(output);
        let ghost listed = listed_sessions(output@);
        proof {
            lemma_listed_ids_nonzero(output@);
        }
        let mut table: HashMap<u32, Session> = HashMap::new();
        let mut i: usize = 0;
        assert(table@.map_values(|s: Session| s@) =~= session_table(listed.take(0)));
        while i < parsed.len()
            invariant
                i <= parsed.len(),
                parsed@.map_values(|s: Session| s@) == listed,
                forall|j: int| 0 <= j < listed.len() ==> #[trigger] listed[j].id != 0,
                table@.map_values(|s: Session| s@) == session_table(listed.take(i as int)),
                forall|k: u32| #[trigger]
                    table@.contains_key(k) ==> k != 0 && table@[k].id == k,
            decreases parsed.len() - i,
        {
            let s = parsed[i].clone();
            proof {
                assert(listed[i as int] == s@);
                assert(listed.take(i + 1).drop_last() =~= listed.take(i as int));
            }
            let ghost before = table@;
            table.insert(s.id, s);
            assert(table@.map_values(|s: Session| s@) =~= before.map_values(|s: Session| s@).insert(
                s@.id,
                s@,
            ));
            i = i + 1;
        }
        assert(listed.take(i as int) =~= listed);
        self.sessions = table;
    }

    /// The sessions of the table, each once, in no particular order.
    pub fn list_sessions(&self) -> (r: Vec<Session>)
        ensures
            lists_table(r@, self@),
    {
        proof {
            use_type_invariant(self);
        }
        let mut r: Vec<Session> = Vec::new();
        let ghost keys = vstd::std_specs::hash::spec_keys_iter(&self.sessions).remaining();
        proof {
            assert forall|i: int| 0 <= i < keys.len() implies self.sessions@.contains_key(
                *#[trigger] keys[i],
            ) by {
                assert(keys.unref()[i] == *keys[i]);
                assert(keys.unref().to_set().contains(keys.unref()[i]));
            }
        }
        for k in it: self.sessions.keys()
            invariant
                it.seq() == keys,
                r.len() == it.index(),
                keys.no_duplicates(),
                keys.len() == self.sessions@.dom().len(),
                forall|i: int| 0 <= i < keys.len() ==> self.sessions@.contains_key(*#[trigger] keys[i]),
                forall|k: u32| #[trigger]
                    self.sessions@.contains_key(k) ==> k != 0 && self.sessions@[k].id == k,
                forall|i: int| 0 <= i < r.len() ==> r@[i].id == *keys[i],
                forall|i: int| 0 <= i < r.len() ==> #[trigger] self.sessions@.contains_key(r@[i].id),
                forall|i: int| 0 <= i < r.len() ==> self.sessions@[#[trigger] r@[i].id] == r@[i],
        {
            assert(self.sessions@.contains_key(*k));
            match self.sessions.get(k) {
                Some(s) => {
                    r.push(s.clone());
                },
                None => {},
            }
        }
        proof {
            assert(self@.dom() =~= self.sessions@.dom());
            assert forall|i: int, j: int| 0 <= i < j < r.len() implies r@[i].id != r@[j].id by {
                assert(keys[i] != keys[j]);
            }
            assert forall|k: u32| #[trigger] self.sessions@.contains_key(k) implies exists|i: int|
                0 <= i < r.len() && r@[i].id == k by {
                assert(keys.unref().to_set().contains(k));
                assert(keys.unref().contains(k));
                let i = choose|i: int| 0 <= i < keys.unref().len() && keys.unref()[i] == k;
                assert(keys.unref()[i] == *keys[i]);
                assert(r@[i].id == k);
            }
        }
        r
    }

    /// The command that sets session `id` to `level` percent; `InvalidParameter`
    /// for id 0.
    pub fn volume_command(&self, id: u32, level: u32) -> (r: Result<PactlCommand, ControllerError>)
        ensures
            id == 0 ==> r == Err::<PactlCommand, ControllerError>(ControllerError::InvalidParameter),
            id != 0 ==> (r matches Ok(c) && c@ == volume_args(id, level)),
    {
        if id == 0 {
            return Err(ControllerError::InvalidParameter);
        }
        let mut args: Vec<String> = Vec::new();
        args.push(String::from_str("set-sink-input-volume"));
        args.push(decimal_string(id));
        let mut amount = decimal_string(level);
        amount.append("%");
        args.push(amount);
        let command = command_of(args);
        assert(command@ =~= volume_args(id, level));
        Ok(command)
    }

    /// Records a volume change that `pactl` carried out.
    pub fn record_volume(&mut self, id: u32, level: u32)
        ensures
            final(self)@ == table_with_volume(old(self)@, id, level),
    {
        proof {
            use_type_invariant(&*self);
        }
        let mut table: HashMap<u32, Session> = HashMap::new();
        std::mem::swap(&mut table, &mut self.sessions);
        let ghost before = table@;
        match table.remove(&id) {
            Some(mut s) => {
                s.volume_percent = level;
                s.left_percent = level;
                s.right_percent = level;
                table.insert(id, s);
                assert(table@.map_values(|s: Session| s@) =~= before.map_values(|s: Session| s@).insert(
                    id,
                    s@,
                ));
            },
            None => {
                assert(table@ =~= before);
            },
        }
        self.sessions = table;
    }

    /// The command that sets the mute state of session `id`: none when the table
    /// already shows that state; `InvalidParameter` for id 0.
    pub fn mute_command(&self, id: u32, mute: bool) -> (r: Result<Option<PactlCommand>, ControllerError>)
        ensures
            id == 0 ==> r == Err::<Option<PactlCommand>, ControllerError>(
                ControllerError::InvalidParameter,
            ),
            id != 0 && shows_mute(self@, id, mute) ==> r == Ok::<
                Option<PactlCommand>,
                ControllerError,
            >(None),
            id != 0 && !shows_mute(self@, id, mute) ==> (r matches Ok(
                Some(c),
            ) && c@ == mute_args(id, mute)),
            id != 0 && self@.contains_key(id) && self@[id].mute != mute ==> (r matches Ok(
                Some(c),
            ) && c@ == mute_args(id, mute)),
            id != 0 && !self@.contains_key(id) ==> (r matches Ok(Some(c)) && c@ == mute_args(id, mute)),
    {
        if id == 0 {
            return Err(ControllerError::InvalidParameter);
        }
        match self.sessions.get(&id) {
            Some(s) => {
                if s.mute == mute {
                    return Ok(None);
                }
            },
            None => {},
        }
        let mut args: Vec<String> = Vec::new();
        args.push(String::from_str("set-sink-input-mute"));
        args.push(decimal_string(id));
        args.push(
            if mute {
                String::from_str("1")
            } else {
                String::from_str("0")
            },
        );
        let command = command_of(args);
        assert(command@ =~= mute_args(id, mute));
        Ok(Some(command))
    }

    /// Records a mute change that `pactl` carried out.
    pub fn record_mute(&mut self, id: u32, mute: bool)
        ensures
            final(self)@ == table_with_mute(old(self)@, id, mute),
    {
        proof {
            use_type_invariant(&*self);
        }
        let mut table: HashMap<u32, Session> = HashMap::new();
        std::mem::swap(&mut table, &mut self.sessions);
        let ghost before = table@;
        match table.remove(&id) {
            Some(mut s) => {
                s.mute = mute;
                table.insert(id, s);
                assert(table@.map_values(|s: Session| s@) =~= before.map_values(|s: Session| s@).insert(
                    id,
                    s@,
                ));
            },
            None => {
                assert(table@ =~= before);
            },
        }
        self.sessions = table;
    }
}

// ---------------------------------------------------------------------------
// Laws of the controller
// ---------------------------------------------------------------------------

/// Once `pactl` has set the mute state of a known session, the table shows that
/// state, so asking for the same state again issues no command (`mute_command`
/// gives `Ok(None)`), and recording it again changes nothing.
pub proof fn law_mute_is_recorded(t: Map<u32, SessionView>, id: u32, mute: bool)
    requires
        t.contains_key(id),
    ensures
        shows_mute(table_with_mute(t, id, mute), id, mute),
        table_with_mute(table_with_mute(t, id, mute), id, mute) == table_with_mute(t, id, mute),
{
    assert(table_with_mute(table_with_mute(t, id, mute), id, mute) =~= table_with_mute(t, id, mute));
}

/// Recording a change leaves every other session as it was.
pub proof fn law_record_touches_one(t: Map<u32, SessionView>, id: u32, other: u32, mute: bool, level: u32)
    requires
        other != id,
    ensures
        table_with_mute(t, id, mute).contains_key(other) == t.contains_key(other),
        table_with_volume(t, id, level).contains_key(other) == t.contains_key(other),
        t.contains_key(other) ==> table_with_mute(t, id, mute)[other] == t[other],
        t.contains_key(other) ==> table_with_volume(t, id, level)[other] == t[other],
{
}

/// `s` spells the lower-case ASCII word `word` with any letters in either case:
/// each character is the word's own or its upper-case form (32 below it).
pub open spec fn spells_ignoring_case(s: Seq<char>, word: Seq<char>) -> bool {
    &&& s.len() == word.len()
    &&& forall|i: int|
        0 <= i < s.len() ==> (s[i] == word[i] || ('a' <= word[i] && word[i] <= 'z' && (s[i] as int)
            + 32 == (word[i] as int)))
}

/// A `Mute:` line sets the session's mute state and nothing else: muted exactly
/// when its value, trimmed, spells `yes` in any mix of cases.
pub proof fn law_mute_line(cur: SessionView, v: Seq<char>)
    ensures
        session_line(cur, "Mute:"@ + v) == (SessionView {
            mute: spells_ignoring_case(trim(v), "yes"@),
            ..cur
        }),
{
    let line = "Mute:"@ + v;
    reveal_strlit("Mute:");
    reveal_strlit("yes");
    reveal_strlit("application.name =");
    reveal_strlit("application.process.id =");
    reveal_strlit("sink =");
    reveal_strlit("volume:");
    assert(line[0] == 'M');
    if starts_with(line, "application.name ="@) {
        assert(line.subrange(0, 18)[0] == line[0]);
    }
    if starts_with(line, "application.process.id ="@) {
        assert(line.subrange(0, 24)[0] == line[0]);
    }
    if starts_with(line, "sink ="@) {
        assert(line.subrange(0, 6)[0] == line[0]);
    }
    if starts_with(line, "volume:"@) {
        assert(line.subrange(0, 7)[0] == line[0]);
    }
    assert(line.subrange(0, 5) =~= "Mute:"@);
    assert(after_prefix(line, "Mute:"@) =~= v);
    let t = trim(v);
    if is_yes(t) {
        assert(spells_ignoring_case(t, "yes"@));
    }
    if spells_ignoring_case(t, "yes"@) {
        assert(t[0] == 'y' || t[0] == 'Y');
        assert(t[1] == 'e' || t[1] == 'E');
        assert(t[2] == 's' || t[2] == 'S');
        assert(is_yes(t));
    }
}

/// Whatever mute state the table shows for a known session, asking for the
/// other state is not already shown, so `mute_command` issues a command; asking
/// for the shown state is, and it issues none. An unknown session never shows
/// a state.
pub proof fn law_mute_command_needed(t: Map<u32, SessionView>, id: u32, mute: bool)
    ensures
        t.contains_key(id) && t[id].mute != mute ==> !shows_mute(t, id, mute),
        t.contains_key(id) && t[id].mute == mute ==> shows_mute(t, id, mute),
        !t.contains_key(id) ==> !shows_mute(t, id, mute),
{
}

/// The error for a `pactl` run that failed: its standard error output, trimmed.
pub fn pactl_failure(stderr: &str) -> (e: ControllerError)
    ensures
        e matches ControllerError::PlatformError(m) && m@ == "pactl error: "@ + trim(stderr@),
{
    let v = chars_of(stderr);
    let (a, b) = trim_bounds(&v, 0, v.len(), false);
    assert(v@.subrange(0, v.len() as int) =~= stderr@);
    let mut m = String::from_str("pactl error: ");
    m.append(stderr.substring_char(a, b));
    ControllerError::PlatformError(m)
}

} // verus!
