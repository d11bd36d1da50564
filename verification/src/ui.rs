//! What the keys do.

use vstd::prelude::*;

verus! {

/// The loudest volume, in percent.
pub const MAX_VOLUME: u64 = 200;

/// By how much a key press changes the volume, in percent.
pub const VOLUME_STEP: u64 = 10;

/// A key.
#[derive(Clone, Copy, PartialEq, Eq, Structural)]
pub enum Key {
    Char(char),
    Left,
    Right,
    Home,
    Other,
}

/// What happens to the window.
#[derive(Clone, Copy, PartialEq, Eq, Structural)]
pub enum WindowEvent {
    Close,
    KeyDown(Key),
    Other,
}

/// What has to be done about it.
#[derive(Clone, Copy, PartialEq, Eq, Structural)]
pub enum Command {
    Quit,
    /// Stop the sound, or let it go on, and wake who waits for that.
    SetPaused(bool),
    ToggleFullscreen,
    Screenshot,
    /// Seek by so many seconds from the frame that is shown.
    SeekBy(i32),
    SeekToStart,
    /// The volume is now this, in percent.
    ShowVolume(u64),
    /// The sound is now off, or on again.
    ShowMute(bool),
    Nothing,
}

/// What the keys change.
pub struct PlayerModel {
    pub paused: bool,
    pub volume: nat,
    pub muted: bool,
}

impl PlayerModel {
    /// The volume is within its limits.
    pub open spec fn wf(self) -> bool {
        self.volume <= MAX_VOLUME
    }

    /// What a key press changes, and what has to be done about it.
    pub open spec fn pressed(self, key: Key) -> (PlayerModel, Command) {
        if key == Key::Char(' ') {
            (
                PlayerModel { paused: !self.paused, ..self },
                Command::SetPaused(!self.paused),
            )
        } else if key == Key::Char('f') || key == Key::Char('F') {
            (self, Command::ToggleFullscreen)
        } else if key == Key::Char('s') || key == Key::Char('S') {
            (self, Command::Screenshot)
        } else if key == Key::Left {
            (self, Command::SeekBy((-10) as i32))
        } else if key == Key::Right {
            (self, Command::SeekBy(10))
        } else if key == Key::Char('[') {
            (self, Command::SeekBy((-5) as i32))
        } else if key == Key::Char(']') {
            (self, Command::SeekBy(5))
        } else if key == Key::Home {
            (self, Command::SeekToStart)
        } else if key == Key::Char('+') || key == Key::Char('=') {
            let volume = if self.volume + VOLUME_STEP > MAX_VOLUME {
                MAX_VOLUME as nat
            } else {
                self.volume + VOLUME_STEP as nat
            };
            (PlayerModel { volume, ..self }, Command::ShowVolume(volume as u64))
        } else if key == Key::Char('-') || key == Key::Char('_') {
            let volume = if self.volume < VOLUME_STEP {
                0
            } else {
                (self.volume - VOLUME_STEP) as nat
            };
            (PlayerModel { volume, ..self }, Command::ShowVolume(volume as u64))
        } else if key == Key::Char('m') || key == Key::Char('M') {
            (PlayerModel { muted: !self.muted, ..self }, Command::ShowMute(!self.muted))
        } else {
            (self, Command::Nothing)
        }
    }

    /// The state at the start.
    pub open spec fn started() -> PlayerModel {
        PlayerModel { paused: false, volume: 100, muted: false }
    }

    /// The state once a new source starts to play.
    pub open spec fn resumed(self) -> PlayerModel {
        PlayerModel { paused: false, ..self }
    }

    /// What an event changes, and what has to be done about it.
    pub open spec fn handled(self, event: WindowEvent) -> (PlayerModel, Command) {
        match event {
            WindowEvent::Close => (self, Command::Quit),
            WindowEvent::KeyDown(key) => self.pressed(key),
            WindowEvent::Other => (self, Command::Nothing),
        }
    }
}

/// What lasts from one source to the next.
pub struct PlayerState {
    paused: bool,
    volume: u64,
    mute: u64,
}

impl View for PlayerState {
    type V = PlayerModel;

    closed spec fn view(&self) -> PlayerModel {
        PlayerModel { paused: self.paused, volume: self.volume as nat, muted: self.mute != 0 }
    }
}

impl PlayerState {
    #[verifier::type_invariant]
    spec fn inv(self) -> bool {
        self.volume <= MAX_VOLUME && self.mute <= 1
    }

    /// Playing, at the recorded volume.
    pub fn new() -> (state: PlayerState)
        ensures
            state@ == (PlayerModel { paused: false, volume: 100, muted: false }),
            state@ == PlayerModel::started(),
    {
        PlayerState { paused: false, volume: 100, mute: 0 }
    }

    /// Takes in an event.
    pub fn handle(&mut self, event: WindowEvent) -> (command: Command)
        ensures
            (final(self)@, command) == old(self)@.handled(event),
            final(self)@.wf(),
    {
        proof {
            use_type_invariant(&*self);
        }
        let key: Key = match event {
            WindowEvent::Close => return Command::Quit,
            WindowEvent::Other => return Command::Nothing,
            WindowEvent::KeyDown(key) => key,
        };
        match key {
            Key::Char(' ') => {
                self.paused = !self.paused;
                Command::SetPaused(self.paused)
            },
            Key::Char('f') | Key::Char('F') => Command::ToggleFullscreen,
            Key::Char('s') | Key::Char('S') => Command::Screenshot,
            Key::Left => Command::SeekBy(-10),
            Key::Right => Command::SeekBy(10),
            Key::Char('[') => Command::SeekBy(-5),
            Key::Char(']') => Command::SeekBy(5),
            Key::Home => Command::SeekToStart,
            Key::Char('+') | Key::Char('=') => {
                self.volume = if self.volume > MAX_VOLUME - VOLUME_STEP {
                    MAX_VOLUME
                } else {
                    self.volume + VOLUME_STEP
                };
                Command::ShowVolume(self.volume)
            },
            Key::Char('-') | Key::Char('_') => {
                self.volume = if self.volume < VOLUME_STEP {
                    0
                } else {
                    self.volume - VOLUME_STEP
                };
                Command::ShowVolume(self.volume)
            },
            Key::Char('m') | Key::Char('M') => {
                self.mute = if self.mute == 0 {
                    1
                } else {
                    0
                };
                Command::ShowMute(self.mute != 0)
            },
            _ => Command::Nothing,
        }
    }

    /// A new source starts to play.
    pub fn resume(&mut self)
        ensures
            final(self)@ == (PlayerModel { paused: false, ..old(self)@ }),
            final(self)@ == old(self)@.resumed(),
    {
        proof {
            use_type_invariant(&*self);
        }
        self.paused = false;
    }

    /// Whether playing is paused.
    pub fn paused(&self) -> (paused: bool)
        ensures
            paused == self@.paused,
    {
        self.paused
    }

    /// The volume in percent.
    pub fn volume(&self) -> (volume: u64)
        ensures
            volume == self@.volume,
            volume <= MAX_VOLUME,
    {
        proof {
            use_type_invariant(self);
        }
        self.volume
    }

    /// One where the sound is off, else zero.
    pub fn mute(&self) -> (mute: u64)
        ensures
            mute == (if self@.muted {
                1u64
            } else {
                0u64
            }),
    {
        proof {
            use_type_invariant(self);
        }
        self.mute
    }
}

/// Whether the window itself has nothing left to do about an event.
pub open spec fn consumes(command: Command) -> bool {
    command == Command::Quit
}

/// Whether the window itself has nothing left to do about an event.
pub fn is_consumed(command: Command) -> (consumed: bool)
    ensures
        consumed == (command == Command::Quit),
        consumed == consumes(command),
{
    match command {
        Command::Quit => true,
        _ => false,
    }
}

/// The volume stays within its limits, whatever is pressed.
pub proof fn law_volume_stays_within_limits(player: PlayerModel, event: WindowEvent)
    requires
        player.wf(),
    ensures
        player.handled(event).0.wf(),
{
}

/// The pause key and the mute key undo themselves.
pub proof fn law_toggles_undo_themselves(player: PlayerModel, key: Key)
    requires
        key == Key::Char(' ') || key == Key::Char('m') || key == Key::Char('M'),
    ensures
        player.pressed(key).0.pressed(key).0 == player,
        player.pressed(key).0 != player,
{
}

/// Louder and softer undo each other, where the limits do not get in the way.
pub proof fn law_volume_keys_undo_each_other(player: PlayerModel)
    requires
        player.wf(),
    ensures
        player.volume + VOLUME_STEP <= MAX_VOLUME ==> player.pressed(Key::Char('+')).0.pressed(
            Key::Char('-'),
        ).0 == player,
        player.volume >= VOLUME_STEP ==> player.pressed(Key::Char('-')).0.pressed(
            Key::Char('+'),
        ).0 == player,
{
}

/// Capital letters do what small ones do.
pub proof fn law_case_does_not_matter(player: PlayerModel)
    ensures
        player.pressed(Key::Char('F')) == player.pressed(Key::Char('f')),
        player.pressed(Key::Char('S')) == player.pressed(Key::Char('s')),
        player.pressed(Key::Char('M')) == player.pressed(Key::Char('m')),
{
}

/// The seek keys seek: ten seconds with the arrows, five with the brackets, and to the
/// start; they change nothing else.
pub proof fn law_seek_keys(player: PlayerModel)
    ensures
        player.pressed(Key::Left).1 matches Command::SeekBy(seconds) && seconds == -10,
        player.pressed(Key::Right).1 matches Command::SeekBy(seconds) && seconds == 10,
        player.pressed(Key::Char('[')).1 matches Command::SeekBy(seconds) && seconds == -5,
        player.pressed(Key::Char(']')).1 matches Command::SeekBy(seconds) && seconds == 5,
        player.pressed(Key::Home).1 is SeekToStart,
        player.pressed(Key::Left).0 == player,
        player.pressed(Key::Right).0 == player,
        player.pressed(Key::Char('[')).0 == player,
        player.pressed(Key::Char(']')).0 == player,
        player.pressed(Key::Home).0 == player,
{
}

/// The pause key pauses and resumes, and says which; it changes nothing else.
pub proof fn law_pause_key(player: PlayerModel)
    ensures
        player.pressed(Key::Char(' ')).0.paused == !player.paused,
        player.pressed(Key::Char(' ')).0.volume == player.volume,
        player.pressed(Key::Char(' ')).0.muted == player.muted,
        player.pressed(Key::Char(' ')).1 == Command::SetPaused(!player.paused),
{
}

/// The mute key turns the sound off and on, and says which; it changes nothing else.
pub proof fn law_mute_key(player: PlayerModel, key: Key)
    requires
        key == Key::Char('m') || key == Key::Char('M'),
    ensures
        player.pressed(key).0.muted == !player.muted,
        player.pressed(key).0.volume == player.volume,
        player.pressed(key).0.paused == player.paused,
        player.pressed(key).1 == Command::ShowMute(!player.muted),
{
}

/// The volume keys change the volume by ten, as far as it can go, and show what it is
/// then; they change nothing else.
pub proof fn law_volume_keys(player: PlayerModel, louder: Key, softer: Key)
    requires
        player.wf(),
        louder == Key::Char('+') || louder == Key::Char('='),
        softer == Key::Char('-') || softer == Key::Char('_'),
    ensures
        player.volume <= 190 ==> player.pressed(louder).0.volume == player.volume + 10,
        player.volume >= 190 ==> player.pressed(louder).0.volume == 200,
        player.volume >= 10 ==> player.pressed(softer).0.volume == player.volume - 10,
        player.volume <= 10 ==> player.pressed(softer).0.volume == 0,
        player.pressed(louder).1 matches Command::ShowVolume(shown) && shown == player.pressed(
            louder,
        ).0.volume,
        player.pressed(softer).1 matches Command::ShowVolume(shown) && shown == player.pressed(
            softer,
        ).0.volume,
        player.pressed(louder).0.paused == player.paused,
        player.pressed(louder).0.muted == player.muted,
        player.pressed(softer).0.paused == player.paused,
        player.pressed(softer).0.muted == player.muted,
{
}

/// The keys for fullscreen and for a screenshot do that and change nothing; all keys
/// without a meaning do nothing.
pub proof fn law_other_keys(player: PlayerModel, key: Key)
    ensures
        key == Key::Char('f') || key == Key::Char('F') <==> player.pressed(
            key,
        ).1 is ToggleFullscreen,
        key == Key::Char('s') || key == Key::Char('S') <==> player.pressed(key).1 is Screenshot,
        player.pressed(key).1 is ToggleFullscreen || player.pressed(key).1 is Screenshot
            || player.pressed(key).1 is Nothing ==> player.pressed(key).0 == player,
        player.pressed(key).1 is Nothing <==> !(key == Key::Left || key == Key::Right || key
            == Key::Home || key == Key::Char(' ') || key == Key::Char('f') || key == Key::Char('F')
            || key == Key::Char('s') || key == Key::Char('S') || key == Key::Char('[') || key
            == Key::Char(']') || key == Key::Char('+') || key == Key::Char('=') || key
            == Key::Char('-') || key == Key::Char('_') || key == Key::Char('m') || key
            == Key::Char('M')),
        !(player.pressed(key).1 is Quit),
{
}

/// Closing the window quits, a key does what it does, and other events do nothing; only
/// closing quits.
pub proof fn law_events_are_handled(player: PlayerModel, event: WindowEvent)
    ensures
        player.handled(event).1 is Quit <==> event is Close,
        event is Close ==> player.handled(event).0 == player,
        event is Other ==> player.handled(event).0 == player && player.handled(event).1 is Nothing,
        event matches WindowEvent::KeyDown(key) ==> player.handled(event) == player.pressed(key),
{
}

/// Of all events only the closing of the window is kept from it.
pub proof fn law_only_closing_is_consumed(player: PlayerModel, event: WindowEvent)
    ensures
        consumes(player.handled(event).1) <==> event is Close,
{
}

/// A new source is not paused, and is as loud as the one before.
pub proof fn law_new_source_plays(player: PlayerModel)
    ensures
        !player.resumed().paused,
        player.resumed().volume == player.volume,
        player.resumed().muted == player.muted,
{
}

/// The player starts at the recorded volume, unmuted and playing, and can be made twice as
/// loud, and silent, in ten steps.
pub proof fn law_player_starts_midway(louder: Key, softer: Key)
    requires
        louder == Key::Char('+') || louder == Key::Char('='),
        softer == Key::Char('-') || softer == Key::Char('_'),
    ensures
        PlayerModel::started().wf(),
        !PlayerModel::started().paused,
        !PlayerModel::started().muted,
        PlayerModel::started().volume + 10 * 10 == 200,
        PlayerModel::started().volume == 10 * 10,
        PlayerModel::started().pressed(louder).0.volume == 110,
        PlayerModel::started().pressed(softer).0.volume == 90,
{
}

} // verus!
