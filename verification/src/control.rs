//! The interactive loop: from what the keyboard, the channel and the player
//! report to what is done next.
//!
//! The loop decides; its caller waits for input, writes to the channel and
//! shows what is announced.

use vstd::prelude::*;
use vstd::string::*;
use crate::command::{Command, CommandView, SeekMode};
use crate::item::{normalize_host, normalized, SimpleItem};
use crate::playlist::{CursorView, PlaylistCursor};

verus! {

/// How long one wait for input lasts at most, in milliseconds.
pub const POLL_SLICE_MILLIS: u64 = 250;

/// By how much a key changes the volume.
pub const VOLUME_STEP: i64 = 5;

/// By how many seconds a key seeks.
pub const SEEK_STEP: i64 = 5;

/// A key, as far as the loop tells keys apart.
#[derive(Clone, Copy, Debug, PartialEq, Eq, Structural)]
pub enum Key {
    Char(char),
    Left,
    Right,
    Other,
}

/// What the loop is told.
#[derive(Clone, Copy, Debug, PartialEq, Eq, Structural)]
pub enum LoopEvent {
    /// No input came within the slice.
    Quiet,
    /// A key event came; `pressed` tells a press from a release or a repeat.
    Key { key: Key, pressed: bool },
    /// Input of another kind came.
    OtherInput,
    /// Input could not be waited for or read.
    InputFailed,
    /// The command was written to the channel.
    Delivered,
    /// The command could not be written to the channel.
    DeliveryFailed,
    /// The player ended by itself.
    PlayerExited,
}

/// Whether the loop goes on.
#[derive(Clone, Copy, Debug, PartialEq, Eq, Structural)]
pub enum LoopPhase {
    Running,
    Terminated,
}

/// Why an item is announced.
#[derive(Clone, Copy, Debug, PartialEq, Eq, Structural)]
pub enum Occasion {
    /// It is the first to play.
    Start,
    /// The user went on to it.
    Next,
    /// The user went back to it.
    Prev,
}

/// The words an announcement opens with.
pub open spec fn occasion_text(occasion: Occasion) -> Seq<char> {
    match occasion {
        Occasion::Start => "▶ Playing:"@,
        Occasion::Next => "»» Next："@,
        Occasion::Prev => "⏮ Prev："@,
    }
}

/// A title to show to the user.
#[derive(Debug, PartialEq, Eq)]
pub struct Announcement {
    pub occasion: Occasion,
    pub title: String,
}

/// The mathematical content of an [`Announcement`].
pub struct AnnouncementView {
    pub occasion: Occasion,
    pub title: Seq<char>,
}

impl View for Announcement {
    type V = AnnouncementView;

    open spec fn view(&self) -> AnnouncementView {
        AnnouncementView { occasion: self.occasion, title: self.title@ }
    }
}

impl Announcement {
    /// The line to show.
    pub fn text(&self) -> (r: String)
        ensures
            r@ == occasion_text(self.occasion) + self.title@,
    {
        let opening = match self.occasion {
            Occasion::Start => String::from_str("▶ Playing:"),
            Occasion::Next => String::from_str("»» Next："),
            Occasion::Prev => String::from_str("⏮ Prev："),
        };
        opening.concat(self.title.as_str())
    }
}

/// What the loop asks for.
#[derive(Debug, PartialEq, Eq)]
pub enum LoopAction {
    /// Wait for input, for [`POLL_SLICE_MILLIS`] at most, and report what
    /// came.
    Poll,
    /// Write `command` to the channel and report whether that worked; show
    /// the announcement, if there is one.
    Send { command: Command, announce: Option<Announcement> },
    /// Leave the loop and wait for the player to end.
    Finish,
    /// Leave the loop: input has failed.
    Abort,
}

/// The mathematical content of a [`LoopAction`].
pub enum ActionView {
    Poll,
    Send { command: CommandView, announce: Option<AnnouncementView> },
    Finish,
    Abort,
}

impl View for LoopAction {
    type V = ActionView;

    open spec fn view(&self) -> ActionView {
        match self {
            LoopAction::Poll => ActionView::Poll,
            LoopAction::Send { command, announce } => ActionView::Send {
                command: command@,
                announce: match announce {
                    Some(a) => Some(a@),
                    None => None,
                },
            },
            LoopAction::Finish => ActionView::Finish,
            LoopAction::Abort => ActionView::Abort,
        }
    }
}

/// The address of the item at the cursor, as built from its identifier.
pub open spec fn current_address(cursor: CursorView) -> Seq<char> {
    cursor.current().playback_url().unwrap()
}

/// The address playback opens with: that of the item at the cursor, with the
/// music host replaced by the standard web host.
pub open spec fn opening_address(cursor: CursorView) -> Seq<char> {
    normalized(current_address(cursor))
}

/// The request to play `address`, announced with the title of the item at the
/// cursor.
pub open spec fn play(cursor: CursorView, occasion: Occasion, address: Seq<char>) -> ActionView {
    ActionView::Send {
        command: CommandView::load(address),
        announce: Some(AnnouncementView { occasion, title: cursor.current().title }),
    }
}

/// The request that opens playback with the item at the cursor.
pub open spec fn play_opening(cursor: CursorView) -> ActionView {
    play(cursor, Occasion::Start, opening_address(cursor))
}

/// The request to play the item at the cursor after a step to it: its address
/// goes to the player as it was built.
pub open spec fn play_current(cursor: CursorView, occasion: Occasion) -> ActionView {
    play(cursor, occasion, current_address(cursor))
}

/// A request that is announced to nobody.
pub open spec fn silent(command: CommandView) -> ActionView {
    ActionView::Send { command, announce: None }
}

/// What a pressed key asks for while the loop runs.
pub open spec fn key_answer(cursor: CursorView, key: Key) -> ActionView {
    match key {
        Key::Char(c) => if c == 'q' {
            silent(CommandView::quit())
        } else if c == ' ' {
            silent(CommandView::toggle_pause())
        } else if c == '+' {
            silent(CommandView::add_volume(VOLUME_STEP as int))
        } else if c == '-' {
            silent(CommandView::add_volume(-VOLUME_STEP))
        } else if c == 'r' {
            silent(CommandView::seek(0, SeekMode::Absolute))
        } else if c == 'n' {
            if cursor.has_next() {
                play_current(cursor.advanced(), Occasion::Next)
            } else {
                ActionView::Poll
            }
        } else if c == 'p' {
            if cursor.has_prev() {
                play_current(cursor.retreated(), Occasion::Prev)
            } else {
                ActionView::Poll
            }
        } else {
            ActionView::Poll
        },
        Key::Right => silent(CommandView::seek(SEEK_STEP as int, SeekMode::Relative)),
        Key::Left => silent(CommandView::seek(-SEEK_STEP, SeekMode::Relative)),
        Key::Other => ActionView::Poll,
    }
}

/// The state of the loop.
pub struct ControlLoop {
    cursor: PlaylistCursor,
    phase: LoopPhase,
}

/// The mathematical content of a [`ControlLoop`].
pub struct LoopView {
    pub cursor: CursorView,
    pub phase: LoopPhase,
}

impl LoopView {
    /// The state after `event`.
    ///
    /// Only a pressed key moves the cursor, and only the quit key, a failure
    /// of input and the end of the player end the loop. What the channel
    /// reports of a command changes nothing.
    pub open spec fn after(self, event: LoopEvent) -> LoopView {
        match (self.phase, event) {
            (LoopPhase::Running, LoopEvent::Key { key: Key::Char(c), pressed: true }) => if c
                == 'q' {
                LoopView { phase: LoopPhase::Terminated, ..self }
            } else if c == 'n' {
                LoopView { cursor: self.cursor.advanced(), ..self }
            } else if c == 'p' {
                LoopView { cursor: self.cursor.retreated(), ..self }
            } else {
                self
            },
            (LoopPhase::Running, LoopEvent::InputFailed) => LoopView {
                phase: LoopPhase::Terminated,
                ..self
            },
            (LoopPhase::Running, LoopEvent::PlayerExited) => LoopView {
                phase: LoopPhase::Terminated,
                ..self
            },
            _ => self,
        }
    }

    /// What is asked for in answer to `event`.
    pub open spec fn answer(self, event: LoopEvent) -> ActionView {
        match (self.phase, event) {
            (LoopPhase::Terminated, _) => ActionView::Finish,
            (LoopPhase::Running, LoopEvent::Key { key, pressed: true }) => key_answer(
                self.cursor,
                key,
            ),
            (LoopPhase::Running, LoopEvent::InputFailed) => ActionView::Abort,
            (LoopPhase::Running, LoopEvent::PlayerExited) => ActionView::Finish,
            (LoopPhase::Running, _) => ActionView::Poll,
        }
    }
}

impl LoopView {
    /// The state after all of `events`, taken in order.
    pub open spec fn after_all(self, events: Seq<LoopEvent>) -> LoopView
        decreases events.len(),
    {
        if events.len() == 0 {
            self
        } else {
            self.after_all(events.drop_last()).after(events.last())
        }
    }
}

/// Whatever is reported, the playlist stays as it is and the position stays
/// inside it.
pub proof fn lemma_position_stays_inside(state: LoopView, events: Seq<LoopEvent>)
    requires
        state.cursor.valid(),
    ensures
        state.after_all(events).cursor.valid(),
        state.after_all(events).cursor.items == state.cursor.items,
    decreases events.len(),
{
    if events.len() > 0 {
        lemma_position_stays_inside(state, events.drop_last());
    }
}

/// Once the loop has ended, nothing that is reported moves the position or
/// has a command sent: every answer is to leave the loop.
pub proof fn lemma_ended_loop_stays_ended(state: LoopView, events: Seq<LoopEvent>, then: LoopEvent)
    requires
        state.phase == LoopPhase::Terminated,
    ensures
        state.after_all(events) == state,
        state.after_all(events).answer(then) == ActionView::Finish,
    decreases events.len(),
{
    if events.len() > 0 {
        lemma_ended_loop_stays_ended(state, events.drop_last(), then);
    }
}

/// A pressed quit key ends a running loop, whatever came before it.
pub proof fn lemma_quit_ends_the_loop(state: LoopView)
    requires
        state.phase == LoopPhase::Running,
    ensures
        state.after(LoopEvent::Key { key: Key::Char('q'), pressed: true }).phase
            == LoopPhase::Terminated,
        state.answer(LoopEvent::Key { key: Key::Char('q'), pressed: true }) == silent(
            CommandView::quit(),
        ),
{
}

/// A pressed next key, where an item follows, moves the position on by
/// exactly one and asks for that item at its address as built from its
/// identifier, announced by its title.
pub proof fn lemma_next_loads_the_following_item(state: LoopView)
    requires
        state.phase == LoopPhase::Running,
        state.cursor.valid(),
        state.cursor.has_next(),
    ensures
        ({
            let pressed = LoopEvent::Key { key: Key::Char('n'), pressed: true };
            let following = state.cursor.items[state.cursor.index + 1];
            &&& state.after(pressed).cursor.index == state.cursor.index + 1
            &&& state.after(pressed).cursor.items == state.cursor.items
            &&& state.after(pressed).phase == LoopPhase::Running
            &&& state.answer(pressed) == (ActionView::Send {
                command: CommandView::load(following.playback_url().unwrap()),
                announce: Some(
                    AnnouncementView { occasion: Occasion::Next, title: following.title },
                ),
            })
        }),
{
}

/// A pressed previous key, where an item precedes, moves the position back
/// by exactly one and asks for that item at its address as built from its
/// identifier, announced by its title.
pub proof fn lemma_prev_loads_the_preceding_item(state: LoopView)
    requires
        state.phase == LoopPhase::Running,
        state.cursor.valid(),
        state.cursor.has_prev(),
    ensures
        ({
            let pressed = LoopEvent::Key { key: Key::Char('p'), pressed: true };
            let preceding = state.cursor.items[state.cursor.index - 1];
            &&& state.after(pressed).cursor.index == state.cursor.index - 1
            &&& state.after(pressed).cursor.items == state.cursor.items
            &&& state.after(pressed).phase == LoopPhase::Running
            &&& state.answer(pressed) == (ActionView::Send {
                command: CommandView::load(preceding.playback_url().unwrap()),
                announce: Some(
                    AnnouncementView { occasion: Occasion::Prev, title: preceding.title },
                ),
            })
        }),
{
}

/// On the first and on the last item the matching key changes nothing and
/// has nothing sent.
pub proof fn lemma_steps_stop_at_the_ends(state: LoopView)
    requires
        state.phase == LoopPhase::Running,
        state.cursor.valid(),
    ensures
        !state.cursor.has_next() ==> {
            let pressed = LoopEvent::Key { key: Key::Char('n'), pressed: true };
            state.after(pressed) == state && state.answer(pressed) == ActionView::Poll
        },
        !state.cursor.has_prev() ==> {
            let pressed = LoopEvent::Key { key: Key::Char('p'), pressed: true };
            state.after(pressed) == state && state.answer(pressed) == ActionView::Poll
        },
{
}

/// What the channel reports of a command neither ends a running loop nor
/// moves the position: the loop goes on to wait for input.
pub proof fn lemma_delivery_changes_nothing(state: LoopView, delivered: bool)
    requires
        state.phase == LoopPhase::Running,
    ensures
        ({
            let report = if delivered {
                LoopEvent::Delivered
            } else {
                LoopEvent::DeliveryFailed
            };
            &&& state.after(report) == state
            &&& state.answer(report) == ActionView::Poll
        }),
{
}

impl View for ControlLoop {
    type V = LoopView;

    closed spec fn view(&self) -> LoopView {
        LoopView { cursor: self.cursor@, phase: self.phase }
    }
}

fn player_address(item: &SimpleItem) -> (r: String)
    requires
        item@.playable(),
    ensures
        r@ == item@.playback_url().unwrap(),
{
    match item.url() {
        Some(url) => url,
        None => String::new(),
    }
}

fn announced(cursor: &PlaylistCursor, occasion: Occasion, address: String) -> (action: LoopAction)
    ensures
        action@ == play(cursor@, occasion, address@),
{
    LoopAction::Send {
        command: Command::load(address),
        announce: Some(Announcement { occasion, title: cursor.current().title.clone() }),
    }
}

fn stepped_to(cursor: &PlaylistCursor, occasion: Occasion) -> (action: LoopAction)
    ensures
        action@ == play_current(cursor@, occasion),
{
    let address = player_address(cursor.current());
    announced(cursor, occasion, address)
}

fn unannounced(command: Command) -> (action: LoopAction)
    ensures
        action@ == silent(command@),
{
    LoopAction::Send { command, announce: None }
}

impl ControlLoop {
    /// A running loop over `cursor`.
    pub fn new(cursor: PlaylistCursor) -> (r: ControlLoop)
        ensures
            r@ == (LoopView { cursor: cursor@, phase: LoopPhase::Running }),
    {
        ControlLoop { cursor, phase: LoopPhase::Running }
    }

    /// The request that starts playback: play the item at the cursor, at its
    /// address on the standard web host.
    pub fn opening(&self) -> (action: LoopAction)
        ensures
            action@ == play_opening(self@.cursor),
    {
        let built = player_address(self.cursor.current());
        announced(&self.cursor, Occasion::Start, normalize_host(built.as_str()))
    }

    /// Whether the loop goes on.
    pub fn phase(&self) -> (r: LoopPhase)
        ensures
            r == self@.phase,
    {
        self.phase
    }

    /// The playlist and the position in it.
    pub fn cursor(&self) -> (r: &PlaylistCursor)
        ensures
            r@ == self@.cursor,
    {
        &self.cursor
    }

    /// Takes `event` in and says what to do next.
    pub fn step(&mut self, event: LoopEvent) -> (action: LoopAction)
        ensures
            final(self)@ == old(self)@.after(event),
            action@ == old(self)@.answer(event),
            final(self)@.cursor.valid(),
    {
        proof {
            use_type_invariant(&self.cursor);
        }
        match self.phase {
            LoopPhase::Terminated => LoopAction::Finish,
            LoopPhase::Running => match event {
                LoopEvent::Key { key, pressed } => {
                    if pressed {
                        self.press(key)
                    } else {
                        LoopAction::Poll
                    }
                },
                LoopEvent::InputFailed => {
                    self.phase = LoopPhase::Terminated;
                    LoopAction::Abort
                },
                LoopEvent::PlayerExited => {
                    self.phase = LoopPhase::Terminated;
                    LoopAction::Finish
                },
                _ => LoopAction::Poll,
            },
        }
    }

    fn press(&mut self, key: Key) -> (action: LoopAction)
        requires
            old(self)@.phase == LoopPhase::Running,
        ensures
            final(self)@ == old(self)@.after(LoopEvent::Key { key, pressed: true }),
            action@ == key_answer(old(self)@.cursor, key),
    {
        match key {
            Key::Char(c) => {
                if c == 'q' {
                    self.phase = LoopPhase::Terminated;
                    unannounced(Command::quit())
                } else if c == ' ' {
                    unannounced(Command::toggle_pause())
                } else if c == '+' {
                    unannounced(Command::add_volume(VOLUME_STEP))
                } else if c == '-' {
                    unannounced(Command::add_volume(-VOLUME_STEP))
                } else if c == 'r' {
                    unannounced(Command::seek(0, SeekMode::Absolute))
                } else if c == 'n' {
                    if self.cursor.next() {
                        stepped_to(&self.cursor, Occasion::Next)
                    } else {
                        LoopAction::Poll
                    }
                } else if c == 'p' {
                    if self.cursor.prev() {
                        stepped_to(&self.cursor, Occasion::Prev)
                    } else {
                        LoopAction::Poll
                    }
                } else {
                    LoopAction::Poll
                }
            },
            Key::Right => unannounced(Command::seek(SEEK_STEP, SeekMode::Relative)),
            Key::Left => unannounced(Command::seek(-SEEK_STEP, SeekMode::Relative)),
            Key::Other => LoopAction::Poll,
        }
    }
}

} // verus!
