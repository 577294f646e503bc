//! The decisions of the interactive session browser: how each key press and
//! each controller outcome changes the screen state, and which controller
//! operation the program is to carry out next.
use vstd::prelude::*;

use crate::text::{
    all_digits, decimal_text, decimal_value, digit_value, is_digit, parse_u32, parse_u32_at,
    push_decimal, unsigned_digits,
};
use crate::{controller_error_text, ControllerError, Session, SessionView};

verus! {

/// The screen the browser shows.
#[derive(Debug, Clone, Copy, PartialEq, Eq, Structural)]
pub enum AppMode {
    Normal,
    Editing,
    Help,
}

/// The value that the input box is for.
#[derive(Debug, Clone, Copy, PartialEq, Eq, Structural)]
pub enum EditingField {
    Idle,
    Volume,
    BalanceLeft,
    BalanceRight,
}

/// A key press.
#[derive(Debug, Clone, Copy, PartialEq, Eq, Structural)]
pub enum Key {
    Char(char),
    Up,
    Down,
    Enter,
    Esc,
    Backspace,
    Other,
}

/// Which step of an input a volume change carries out, with what its message shows.
#[derive(Debug, Clone, Copy, PartialEq, Eq, Structural)]
pub enum VolumeStep {
    Volume { value: u32 },
    BalanceLeft,
    BalanceRight { left: u32, right: u32 },
}

/// A level that a volume change sends to one side.
#[derive(Debug, Clone, Copy, PartialEq, Eq, Structural)]
pub enum Level {
    /// The typed percentage.
    Percent(u32),
    /// The selected session's left level, as the controller last listed it.
    ListedLeft,
    /// The selected session's right level, as the controller last listed it.
    ListedRight,
}

/// The controller operation that the program is to carry out next.
#[derive(Debug, Clone, Copy, PartialEq, Eq, Structural)]
pub enum Command {
    /// Nothing to do.
    Nothing,
    /// Refresh the sessions, then list them, then call `refresh_done`.
    Refresh,
    /// Set the mute state, then list the sessions, then call `mute_done`.
    SetMute { id: u32, mute: bool },
    /// Set the left and right volume, then list the sessions, then call `volume_done`.
    SetVolume { id: u32, left: Level, right: Level, step: VolumeStep },
    /// List the sessions, then call `balance_reloaded`.
    ReloadForBalance { value: u32 },
    /// List the sessions, then call `close_input`.
    ReloadAndClose,
}

/// The number of ticks for which a message stays on screen.
pub const MESSAGE_TICKS: u32 = 8u32;

/// The longest input, in digits.
pub const MAX_INPUT: usize = 3usize;

/// The state of the browser.
pub struct App {
    sessions: Vec<Session>,
    selected: usize,
    mode: AppMode,
    editing: EditingField,
    input: Vec<char>,
    message: String,
    message_timer: u32,
    running: bool,
}

/// The mathematical content of an [`App`].
pub struct AppView {
    pub sessions: Seq<SessionView>,
    pub selected: usize,
    pub mode: AppMode,
    pub editing: EditingField,
    pub input: Seq<char>,
    pub message: Seq<char>,
    pub message_timer: u32,
    pub running: bool,
}

impl View for App {
    type V = AppView;

    closed spec fn view(&self) -> AppView {
        AppView {
            sessions: self.sessions@.map_values(|s: Session| s@),
            selected: self.selected,
            mode: self.mode,
            editing: self.editing,
            input: self.input@,
            message: self.message@,
            message_timer: self.message_timer,
            running: self.running,
        }
    }
}

// ---------------------------------------------------------------------------
// Transitions
// ---------------------------------------------------------------------------

/// `a` showing message `m` for the full time.
pub open spec fn with_message(a: AppView, m: Seq<char>) -> AppView {
    AppView { message: m, message_timer: MESSAGE_TICKS, ..a }
}

/// `a` back on the list, with no input in progress.
pub open spec fn input_closed(a: AppView) -> AppView {
    AppView { mode: AppMode::Normal, editing: EditingField::Idle, input: Seq::empty(), ..a }
}

/// `a` with the input box open for `field`.
pub open spec fn input_opened(a: AppView, field: EditingField) -> AppView {
    if a.sessions.len() > 0 {
        AppView { mode: AppMode::Editing, editing: field, input: Seq::empty(), ..a }
    } else {
        a
    }
}

/// The selection after moving down: the next session, the first after the last.
pub open spec fn selection_down(selected: usize, n: nat) -> usize {
    ((selected + 1) % (n as int)) as usize
}

/// The selection after moving up: the previous session, the last before the first.
pub open spec fn selection_up(selected: usize, n: nat) -> usize {
    if selected == 0 {
        (n - 1) as usize
    } else {
        (selected - 1) as usize
    }
}

/// Whether a key press can be handled: a key that reads the selected session (a
/// mute toggle, or a confirmed input) needs a selection within a non-empty list.
pub open spec fn key_allowed(a: AppView, key: Key) -> bool {
    let reads_selected = (a.mode == AppMode::Normal && key == Key::Char('m')) || (a.mode
        == AppMode::Editing && key == Key::Enter && a.input.len() > 0 && parse_u32(a.input) is Some);
    reads_selected && a.sessions.len() > 0 ==> a.selected < a.sessions.len()
}

/// A key press on the list.
pub open spec fn normal_key(a: AppView, key: Key) -> (AppView, Command) {
    let n = a.sessions.len();
    if key == Key::Char('q') {
        (AppView { running: false, ..a }, Command::Nothing)
    } else if key == Key::Char('h') || key == Key::Char('?') {
        (AppView { mode: AppMode::Help, ..a }, Command::Nothing)
    } else if key == Key::Down || key == Key::Char('j') {
        if n > 0 {
            (AppView { selected: selection_down(a.selected, n), ..a }, Command::Nothing)
        } else {
            (a, Command::Nothing)
        }
    } else if key == Key::Up || key == Key::Char('k') {
        if n > 0 {
            (AppView { selected: selection_up(a.selected, n), ..a }, Command::Nothing)
        } else {
            (a, Command::Nothing)
        }
    } else if key == Key::Char('r') {
        (a, Command::Refresh)
    } else if key == Key::Char('v') {
        (input_opened(a, EditingField::Volume), Command::Nothing)
    } else if key == Key::Char('b') {
        (input_opened(a, EditingField::BalanceLeft), Command::Nothing)
    } else if key == Key::Char('m') {
        if n > 0 {
            let s = a.sessions[a.selected as int];
            (a, Command::SetMute { id: s.id, mute: !s.mute })
        } else {
            (a, Command::Nothing)
        }
    } else {
        (a, Command::Nothing)
    }
}

/// Enter in the input box.
pub open spec fn submit_input(a: AppView) -> (AppView, Command) {
    if a.sessions.len() == 0 {
        (input_closed(a), Command::Nothing)
    } else if a.input.len() == 0 {
        (with_message(a, "Enter a value"@), Command::Nothing)
    } else {
        match parse_u32(a.input) {
            None => (
                AppView {
                    mode: AppMode::Normal,
                    editing: EditingField::Idle,
                    ..with_message(a, "Invalid number"@)
                },
                Command::Nothing,
            ),
            Some(value) => {
                let s = a.sessions[a.selected as int];
                if a.editing == EditingField::Idle {
                    (a, Command::ReloadAndClose)
                } else if value > 100 {
                    (with_message(a, "Value must be 0-100"@), Command::Nothing)
                } else if a.editing == EditingField::Volume {
                    (
                        a,
                        Command::SetVolume {
                            id: s.id,
                            left: Level::Percent(value),
                            right: Level::Percent(value),
                            step: VolumeStep::Volume { value },
                        },
                    )
                } else if a.editing == EditingField::BalanceLeft {
                    (
                        a,
                        Command::SetVolume {
                            id: s.id,
                            left: Level::Percent(value),
                            right: Level::ListedRight,
                            step: VolumeStep::BalanceLeft,
                        },
                    )
                } else {
                    (a, Command::ReloadForBalance { value })
                }
            },
        }
    }
}

/// A key press in the input box.
pub open spec fn editing_key(a: AppView, key: Key) -> (AppView, Command) {
    if key == Key::Enter {
        submit_input(a)
    } else if key == Key::Esc {
        (input_closed(a), Command::Nothing)
    } else if key matches Key::Char(c) && is_digit(c) {
        if a.input.len() < MAX_INPUT {
            (AppView { input: a.input.push(key->Char_0), ..a }, Command::Nothing)
        } else {
            (a, Command::Nothing)
        }
    } else if key == Key::Backspace {
        if a.input.len() > 0 {
            (AppView { input: a.input.drop_last(), ..a }, Command::Nothing)
        } else {
            (a, Command::Nothing)
        }
    } else {
        (a, Command::Nothing)
    }
}

/// The effect of a key press: the next state and the operation to carry out.
pub open spec fn key_transition(a: AppView, key: Key) -> (AppView, Command) {
    match a.mode {
        AppMode::Normal => normal_key(a, key),
        AppMode::Help => (AppView { mode: AppMode::Normal, ..a }, Command::Nothing),
        AppMode::Editing => editing_key(a, key),
    }
}

/// The state after a refresh and a listing.
pub open spec fn after_refresh(a: AppView, outcome: Result<Seq<SessionView>, ControllerError>) -> AppView {
    match outcome {
        Err(e) => with_message(a, "Refresh failed: "@ + controller_error_text(e)),
        Ok(list) => {
            let b = with_message(AppView { sessions: list, ..a }, "Sessions refreshed"@);
            if b.selected >= list.len() {
                AppView {
                    selected: if list.len() == 0 {
                        0
                    } else {
                        (list.len() - 1) as usize
                    },
                    ..b
                }
            } else {
                b
            }
        },
    }
}

/// The state after a mute change and a listing.
pub open spec fn after_mute(a: AppView, result: Result<(), ControllerError>, list: Seq<SessionView>) -> AppView {
    let b = match result {
        Err(e) => with_message(a, "Mute failed: "@ + controller_error_text(e)),
        Ok(_) => with_message(a, "Mute toggled"@),
    };
    AppView { sessions: list, ..b }
}

/// The message of a successful volume step.
pub open spec fn volume_step_text(step: VolumeStep) -> Seq<char> {
    match step {
        VolumeStep::Volume { value } => "Volume set to "@ + decimal_text(value as nat) + "%"@,
        VolumeStep::BalanceLeft => "Enter Right (0-100)"@,
        VolumeStep::BalanceRight { left, right } => "Balance set: L="@ + decimal_text(left as nat)
            + "%% R="@ + decimal_text(right as nat) + "%"@,
    }
}

/// The state after a volume change and a listing.
pub open spec fn after_volume(
    a: AppView,
    step: VolumeStep,
    result: Result<(), ControllerError>,
    list: Seq<SessionView>,
) -> AppView {
    match result {
        Err(e) => {
            let failed = if step matches VolumeStep::Volume { .. } {
                "Volume failed: "@
            } else {
                "Balance failed: "@
            };
            input_closed(AppView { sessions: list, ..with_message(a, failed + controller_error_text(e)) })
        },
        Ok(_) => if step == VolumeStep::BalanceLeft {
            AppView {
                sessions: list,
                editing: EditingField::BalanceRight,
                input: Seq::empty(),
                ..with_message(a, volume_step_text(step))
            }
        } else {
            input_closed(AppView { sessions: list, ..with_message(a, volume_step_text(step)) })
        },
    }
}

/// The state after one tick of the clock.
pub open spec fn after_tick(a: AppView) -> AppView {
    if a.message_timer > 0 {
        if a.message_timer == 1 {
            AppView { message_timer: 0, message: Seq::empty(), ..a }
        } else {
            AppView { message_timer: (a.message_timer - 1) as u32, ..a }
        }
    } else {
        a
    }
}

// ---------------------------------------------------------------------------
// Laws of the browser
// ---------------------------------------------------------------------------

/// Moving down and up stays within the list and wraps around its ends, and each
/// undoes the other.
pub proof fn law_navigation_wraps(s: usize, n: nat)
    requires
        s < n,
        n <= usize::MAX,
    ensures
        selection_down(s, n) < n,
        selection_up(s, n) < n,
        selection_up(selection_down(s, n), n) == s,
        selection_down(selection_up(s, n), n) == s,
{
    if s + 1 < n {
        vstd::arithmetic::div_mod::lemma_small_mod((s + 1) as nat, n);
    } else {
        vstd::arithmetic::div_mod::lemma_mod_self_0(n as int);
    }
    if s == 0 {
        vstd::arithmetic::div_mod::lemma_mod_self_0(n as int);
    } else {
        vstd::arithmetic::div_mod::lemma_small_mod(s as nat, n);
    }
}

/// `q` on the list stops the browser and asks for nothing.
pub proof fn law_quit(a: AppView)
    requires
        a.mode == AppMode::Normal,
    ensures
        !key_transition(a, Key::Char('q')).0.running,
        key_transition(a, Key::Char('q')).1 == Command::Nothing,
{
}

/// Any key closes the help screen, and changes nothing else.
pub proof fn law_help_closes(a: AppView, key: Key)
    requires
        a.mode == AppMode::Help,
    ensures
        key_transition(a, key) == (AppView { mode: AppMode::Normal, ..a }, Command::Nothing),
{
}

/// Escape leaves the input box and discards what was typed.
pub proof fn law_escape_discards(a: AppView)
    requires
        a.mode == AppMode::Editing,
    ensures
        key_transition(a, Key::Esc) == (input_closed(a), Command::Nothing),
{
}

/// Key presses keep the input to at most three decimal digits.
pub proof fn law_input_stays_short(a: AppView, key: Key)
    requires
        a.input.len() <= MAX_INPUT,
        all_digits(a.input),
    ensures
        key_transition(a, key).0.input.len() <= MAX_INPUT,
        all_digits(key_transition(a, key).0.input),
{
    let b = key_transition(a, key).0;
    if a.mode == AppMode::Editing {
        if key matches Key::Char(c) && is_digit(c) && a.input.len() < MAX_INPUT {
            assert forall|i: int| 0 <= i < b.input.len() implies is_digit(#[trigger] b.input[i]) by {
                if i < a.input.len() {
                    assert(b.input[i] == a.input[i]);
                }
            }
        } else if key == Key::Backspace && a.input.len() > 0 {
            assert forall|i: int| 0 <= i < b.input.len() implies is_digit(#[trigger] b.input[i]) by {
                assert(b.input[i] == a.input[i]);
            }
        }
    }
}

/// Ten to the power `k`.
pub open spec fn pow10(k: nat) -> nat
    decreases k,
{
    if k == 0 {
        1
    } else {
        10 * pow10((k - 1) as nat)
    }
}

/// Decimal digits denote a number below ten to the power of their count.
pub proof fn lemma_decimal_value_below(d: Seq<char>)
    requires
        all_digits(d),
    ensures
        decimal_value(d) < pow10(d.len()),
    decreases d.len(),
{
    if d.len() > 0 {
        let p = d.drop_last();
        assert forall|i: int| 0 <= i < p.len() implies is_digit(#[trigger] p[i]) by {
            assert(p[i] == d[i]);
        }
        lemma_decimal_value_below(p);
        assert(is_digit(d[d.len() - 1]));
        assert(digit_value(d.last()) <= 9);
    }
}

/// An input of one to three digits always reads as a number, so confirming a
/// typed value never reports an invalid number.
pub proof fn law_typed_value_reads(d: Seq<char>)
    requires
        0 < d.len() <= MAX_INPUT,
        all_digits(d),
    ensures
        parse_u32(d) is Some,
        parse_u32(d)->0 <= 999,
{
    assert(is_digit(d[0]));
    assert(unsigned_digits(d) == d);
    lemma_decimal_value_below(d);
    assert(pow10(d.len()) <= 1000) by {
        assert(pow10(0) == 1);
        assert(pow10(1) == 10);
        assert(pow10(2) == 100);
        assert(pow10(3) == 1000);
    }
}

/// The state after `k` ticks.
pub open spec fn after_ticks(a: AppView, k: nat) -> AppView
    decreases k,
{
    if k == 0 {
        a
    } else {
        after_tick(after_ticks(a, (k - 1) as nat))
    }
}

/// A message stays on screen for exactly its time: it is there after fewer
/// ticks and gone after that many.
pub proof fn law_message_expires(a: AppView, m: Seq<char>, k: nat)
    ensures
        k < MESSAGE_TICKS ==> after_ticks(with_message(a, m), k).message == m,
        after_ticks(with_message(a, m), MESSAGE_TICKS as nat).message == Seq::<char>::empty(),
    decreases k,
{
    reveal_with_fuel(after_ticks, 9);
}

/// After a refresh the selection lies within the new list (at 0 when it is
/// empty): it stays where it was while the new list still reaches that far,
/// and otherwise moves to the new list's last session.
pub proof fn law_refresh_keeps_selection(a: AppView, list: Seq<SessionView>)
    requires
        list.len() <= usize::MAX,
    ensures
        list.len() > 0 ==> after_refresh(a, Ok(list)).selected < list.len(),
        list.len() == 0 ==> after_refresh(a, Ok(list)).selected == 0,
        a.selected < list.len() ==> after_refresh(a, Ok(list)).selected == a.selected,
        0 < list.len() <= a.selected ==> after_refresh(a, Ok(list)).selected == list.len() - 1,
        after_refresh(a, Ok(list)).sessions == list,
{
}

/// Confirming a typed volume: a value from 0 to 100 asks to set both sides of
/// the selected session to it, leaving the state as it is until the change is
/// done; a value above 100 is refused with a message and asks for nothing.
pub proof fn law_volume_input(a: AppView, d: Seq<char>)
    requires
        a.mode == AppMode::Editing,
        a.editing == EditingField::Volume,
        a.input == d,
        0 < d.len() <= MAX_INPUT,
        all_digits(d),
        a.selected < a.sessions.len(),
    ensures
        decimal_value(d) <= 100 ==> key_transition(a, Key::Enter) == (a, Command::SetVolume {
            id: a.sessions[a.selected as int].id,
            left: Level::Percent(decimal_value(d) as u32),
            right: Level::Percent(decimal_value(d) as u32),
            step: VolumeStep::Volume { value: decimal_value(d) as u32 },
        }),
        decimal_value(d) > 100 ==> key_transition(a, Key::Enter).1 == Command::Nothing,
        decimal_value(d) > 100 ==> key_transition(a, Key::Enter).0.message == "Value must be 0-100"@,
{
    law_typed_value_reads(d);
    assert(is_digit(d[0]));
    assert(unsigned_digits(d) == d);
}

fn text_with(prefix: &str, e: &ControllerError) -> (t: String)
    ensures
        t@ == prefix@ + controller_error_text(*e),
{
    let mut t = String::from_str(prefix);
    let m = e.message();
    t.append(m.as_str());
    t
}

impl App {
    #[verifier::type_invariant]
    spec fn well_formed(self) -> bool {
        &&& self.selected < usize::MAX
        &&& self.input@.len() <= MAX_INPUT
        &&& all_digits(self.input@)
    }

    /// A browser on the list `sessions`, with the first one selected.
    pub fn new(sessions: Vec<Session>) -> (a: App)
        ensures
            a@ == (AppView {
                sessions: sessions@.map_values(|s: Session| s@),
                selected: 0,
                mode: AppMode::Normal,
                editing: EditingField::Idle,
                input: Seq::empty(),
                message: Seq::empty(),
                message_timer: 0,
                running: true,
            }),
    {
        App {
            sessions,
            selected: 0,
            mode: AppMode::Normal,
            editing: EditingField::Idle,
            input: Vec::new(),
            message: String::new(),
            message_timer: 0,
            running: true,
        }
    }

    /// The sessions on the list.
    pub fn sessions(&self) -> (r: &Vec<Session>)
        ensures
            r@.map_values(|s: Session| s@) == self@.sessions,
    {
        &self.sessions
    }

    /// The position of the selected session.
    pub fn selected(&self) -> (r: usize)
        ensures
            r == self@.selected,
    {
        self.selected
    }

    /// The screen shown.
    pub fn mode(&self) -> (r: AppMode)
        ensures
            r == self@.mode,
    {
        self.mode
    }

    /// The value the input box is for.
    pub fn editing(&self) -> (r: EditingField)
        ensures
            r == self@.editing,
    {
        self.editing
    }

    /// The digits typed into the input box.
    pub fn input(&self) -> (r: &Vec<char>)
        ensures
            r@ == self@.input,
    {
        &self.input
    }

    /// The message on screen; empty when there is none.
    pub fn message(&self) -> (r: &String)
        ensures
            r@ == self@.message,
    {
        &self.message
    }

    /// Whether the browser keeps running.
    pub fn running(&self) -> (r: bool)
        ensures
            r == self@.running,
    {
        self.running
    }

    fn set_message(&mut self, m: String)
        ensures
            final(self)@ == with_message(old(self)@, m@),
    {
        proof {
            use_type_invariant(&*self);
        }
        self.message = m;
        self.message_timer = MESSAGE_TICKS;
    }

    fn close_input_box(&mut self)
        ensures
            final(self)@ == input_closed(old(self)@),
    {
        proof {
            use_type_invariant(&*self);
        }
        self.mode = AppMode::Normal;
        self.editing = EditingField::Idle;
        self.input = Vec::new();
    }

    /// Handles a key press and names the controller operation that follows it.
    pub fn on_key(&mut self, key: Key) -> (c: Command)
        requires
            key_allowed(old(self)@, key),
        ensures
            (final(self)@, c) == key_transition(old(self)@, key),
    {
        proof {
            use_type_invariant(&*self);
        }
        match self.mode {
            AppMode::Normal => self.normal_key(key),
            AppMode::Help => {
                self.mode = AppMode::Normal;
                Command::Nothing
            },
            AppMode::Editing => self.editing_key(key),
        }
    }

    fn normal_key(&mut self, key: Key) -> (c: Command)
        requires
            old(self)@.mode == AppMode::Normal,
            key_allowed(old(self)@, key),
        ensures
            (final(self)@, c) == normal_key(old(self)@, key),
    {
        proof {
            use_type_invariant(&*self);
        }
        let n = self.sessions.len();
        if key == Key::Char('q') {
            self.running = false;
            Command::Nothing
        } else if key == Key::Char('h') || key == Key::Char('?') {
            self.mode = AppMode::Help;
            Command::Nothing
        } else if key == Key::Down || key == Key::Char('j') {
            if n > 0 {
                self.selected = (self.selected + 1) % n;
            }
            Command::Nothing
        } else if key == Key::Up || key == Key::Char('k') {
            if n > 0 {
                self.selected = if self.selected == 0 {
                    n - 1
                } else {
                    self.selected - 1
                };
            }
            Command::Nothing
        } else if key == Key::Char('r') {
            Command::Refresh
        } else if key == Key::Char('v') {
            if n > 0 {
                self.editing = EditingField::Volume;
                self.mode = AppMode::Editing;
                self.input = Vec::new();
            }
            Command::Nothing
        } else if key == Key::Char('b') {
            if n > 0 {
                self.editing = EditingField::BalanceLeft;
                self.mode = AppMode::Editing;
                self.input = Vec::new();
            }
            Command::Nothing
        } else if key == Key::Char('m') {
            if n > 0 {
                let s = &self.sessions[self.selected];
                Command::SetMute { id: s.id, mute: !s.mute }
            } else {
                Command::Nothing
            }
        } else {
            Command::Nothing
        }
    }

    fn editing_key(&mut self, key: Key) -> (c: Command)
        requires
            old(self)@.mode == AppMode::Editing,
            key_allowed(old(self)@, key),
        ensures
            (final(self)@, c) == editing_key(old(self)@, key),
    {
        proof {
            use_type_invariant(&*self);
        }
        match key {
            Key::Enter => self.submit_input(),
            Key::Esc => {
                self.close_input_box();
                Command::Nothing
            },
            Key::Char(ch) => {
                let u = ch as u32;
                if 48 <= u && u <= 57 && self.input.len() < MAX_INPUT {
                    let mut buf: Vec<char> = Vec::new();
                    std::mem::swap(&mut buf, &mut self.input);
                    buf.push(ch);
                    proof {
                        assert forall|i: int| 0 <= i < buf@.len() implies is_digit(
                            #[trigger] buf@[i],
                        ) by {
                            if i < buf@.len() - 1 {
                                assert(buf@[i] == old(self).input@[i]);
                            }
                        }
                    }
                    self.input = buf;
                }
                Command::Nothing
            },
            Key::Backspace => {
                if self.input.len() > 0 {
                    let mut buf: Vec<char> = Vec::new();
                    std::mem::swap(&mut buf, &mut self.input);
                    buf.pop();
                    proof {
                        assert forall|i: int| 0 <= i < buf@.len() implies is_digit(
                            #[trigger] buf@[i],
                        ) by {
                            assert(buf@[i] == old(self).input@[i]);
                        }
                    }
                    self.input = buf;
                }
                Command::Nothing
            },
            _ => Command::Nothing,
        }
    }

    fn submit_input(&mut self) -> (c: Command)
        requires
            old(self)@.mode == AppMode::Editing,
            key_allowed(old(self)@, Key::Enter),
        ensures
            (final(self)@, c) == submit_input(old(self)@),
    {
        proof {
            use_type_invariant(&*self);
        }
        if self.sessions.len() == 0 {
            self.close_input_box();
            return Command::Nothing;
        }
        if self.input.len() == 0 {
            self.set_message(String::from_str("Enter a value"));
            return Command::Nothing;
        }
        assert(self.input@.subrange(0, self.input@.len() as int) =~= self.input@);
        match parse_u32_at(&self.input, 0, self.input.len()) {
            None => {
                self.set_message(String::from_str("Invalid number"));
                self.mode = AppMode::Normal;
                self.editing = EditingField::Idle;
                Command::Nothing
            },
            Some(value) => {
                let id = self.sessions[self.selected].id;
                if self.editing == EditingField::Idle {
                    Command::ReloadAndClose
                } else if value > 100 {
                    self.set_message(String::from_str("Value must be 0-100"));
                    Command::Nothing
                } else if self.editing == EditingField::Volume {
                    Command::SetVolume {
                        id,
                        left: Level::Percent(value),
                        right: Level::Percent(value),
                        step: VolumeStep::Volume { value },
                    }
                } else if self.editing == EditingField::BalanceLeft {
                    Command::SetVolume {
                        id,
                        left: Level::Percent(value),
                        right: Level::ListedRight,
                        step: VolumeStep::BalanceLeft,
                    }
                } else {
                    Command::ReloadForBalance { value }
                }
            },
        }
    }

    /// Takes the outcome of a refresh followed by a listing.
    pub fn refresh_done(&mut self, outcome: Result<Vec<Session>, ControllerError>)
        ensures
            final(self)@ == after_refresh(
                old(self)@,
                match outcome {
                    Ok(list) => Ok(list@.map_values(|s: Session| s@)),
                    Err(e) => Err(e),
                },
            ),
    {
        proof {
            use_type_invariant(&*self);
        }
        match outcome {
            Err(e) => {
                let m = text_with("Refresh failed: ", &e);
                self.set_message(m);
            },
            Ok(list) => {
                self.sessions = list;
                self.set_message(String::from_str("Sessions refreshed"));
                let n = self.sessions.len();
                if self.selected >= n {
                    self.selected = if n == 0 {
                        0
                    } else {
                        n - 1
                    };
                }
            },
        }
    }

    /// Takes the outcome of a mute change and the listing that followed it.
    pub fn mute_done(&mut self, result: Result<(), ControllerError>, list: Vec<Session>)
        ensures
            final(self)@ == after_mute(old(self)@, result, list@.map_values(|s: Session| s@)),
    {
        proof {
            use_type_invariant(&*self);
        }
        match result {
            Err(e) => {
                let m = text_with("Mute failed: ", &e);
                self.set_message(m);
            },
            Ok(()) => {
                self.set_message(String::from_str("Mute toggled"));
            },
        }
        self.sessions = list;
    }

    /// Takes the listing that precedes the second step of a balance change, and
    /// names that change: the selected session's left level as listed, and the
    /// value typed; the message shows that left level in whole percent.
    pub fn balance_reloaded(&mut self, list: Vec<Session>, value: u32) -> (c: Command)
        requires
            old(self)@.selected < list.len(),
        ensures
            final(self)@ == (AppView { sessions: list@.map_values(|s: Session| s@), ..old(self)@ }),
            c == (Command::SetVolume {
                id: list@[old(self)@.selected as int].id,
                left: Level::ListedLeft,
                right: Level::Percent(value),
                step: VolumeStep::BalanceRight {
                    left: list@[old(self)@.selected as int].left_percent,
                    right: value,
                },
            }),
    {
        proof {
            use_type_invariant(&*self);
        }
        let id = list[self.selected].id;
        let left = list[self.selected].left_percent;
        self.sessions = list;
        Command::SetVolume {
            id,
            left: Level::ListedLeft,
            right: Level::Percent(value),
            step: VolumeStep::BalanceRight { left, right: value },
        }
    }

    /// Takes the outcome of a volume change and the listing that followed it.
    pub fn volume_done(
        &mut self,
        step: VolumeStep,
        result: Result<(), ControllerError>,
        list: Vec<Session>,
    )
        ensures
            final(self)@ == after_volume(
                old(self)@,
                step,
                result,
                list@.map_values(|s: Session| s@),
            ),
    {
        proof {
            use_type_invariant(&*self);
        }
        match result {
            Err(e) => {
                let m = match step {
                    VolumeStep::Volume { .. } => text_with("Volume failed: ", &e),
                    _ => text_with("Balance failed: ", &e),
                };
                self.set_message(m);
                self.sessions = list;
                self.close_input_box();
            },
            Ok(()) => {
                let m = match step {
                    VolumeStep::Volume { value } => {
                        let mut t = String::from_str("Volume set to ");
                        push_decimal(&mut t, value as u64);
                        t.append("%");
                        t
                    },
                    VolumeStep::BalanceLeft => String::from_str("Enter Right (0-100)"),
                    VolumeStep::BalanceRight { left, right } => {
                        let mut t = String::from_str("Balance set: L=");
                        push_decimal(&mut t, left as u64);
                        t.append("%% R=");
                        push_decimal(&mut t, right as u64);
                        t.append("%");
                        t
                    },
                };
                self.set_message(m);
                self.sessions = list;
                if step == VolumeStep::BalanceLeft {
                    self.editing = EditingField::BalanceRight;
                    self.input = Vec::new();
                } else {
                    self.close_input_box();
                }
            },
        }
    }

    /// Takes the listing that ends an input with no field.
    pub fn close_input(&mut self, list: Vec<Session>)
        ensures
            final(self)@ == input_closed(
                AppView { sessions: list@.map_values(|s: Session| s@), ..old(self)@ },
            ),
    {
        proof {
            use_type_invariant(&*self);
        }
        self.sessions = list;
        self.close_input_box();
    }

    /// One tick of the clock: a message disappears once its time is up.
    pub fn tick(&mut self)
        ensures
            final(self)@ == after_tick(old(self)@),
    {
        proof {
            use_type_invariant(&*self);
        }
        if self.message_timer > 0 {
            self.message_timer = self.message_timer - 1;
            if self.message_timer == 0 {
                self.message = String::new();
            }
        }
    }
}

} // verus!
