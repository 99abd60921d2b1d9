use vstd::prelude::*;

verus! {

/// Volume is kept in tenths of the output's full scale.
pub const DEFAULT_VOLUME: u32 = 10;

/// A press of the volume-down key is honoured only above this level.
pub const VOLUME_FLOOR: u32 = 1;

/// A press of the volume-up key is honoured only below this level.
pub const VOLUME_CEILING: u32 = 9;

/// Where the player is in its life.
#[derive(Clone, Copy, Debug, PartialEq, Eq, Structural)]
pub enum Mode {
    Playing,
    Paused,
    Quit,
}

/// What the control loop asks of the player.
#[derive(Clone, Copy, Debug, PartialEq, Eq, Structural)]
pub enum Command {
    Quit,
    TogglePause,
    VolumeDown,
    VolumeUp,
}

/// What the audio output has to do after a command.
#[derive(Clone, Copy, Debug, PartialEq, Eq, Structural)]
pub enum Action {
    Nothing,
    Pause,
    Resume,
    /// Set the output volume, in tenths of full scale.
    SetVolume(u32),
    Quit,
}

/// One poll of the terminal.
#[derive(Clone, Copy, Debug, PartialEq, Eq, Structural)]
pub enum Input {
    /// A character key was pressed.
    Key(char),
    /// No event came, or one that is not a character key.
    Idle,
    /// Polling or reading the terminal failed.
    Failed,
}

/// The state of a playback session.
#[derive(Clone, Copy, Debug, PartialEq, Eq, Structural)]
pub struct Player {
    pub mode: Mode,
    /// Current volume, in tenths of full scale.
    pub volume: u32,
}

/// The volume after a volume-down press.
pub open spec fn lowered(v: u32) -> u32 {
    if v > VOLUME_FLOOR {
        (v - 1) as u32
    } else {
        v
    }
}

/// The volume after a volume-up press.
pub open spec fn raised(v: u32) -> u32 {
    if v < VOLUME_CEILING {
        (v + 1) as u32
    } else {
        v
    }
}

/// The mode after a pause/resume press.
pub open spec fn toggled(m: Mode) -> Mode {
    match m {
        Mode::Playing => Mode::Paused,
        Mode::Paused => Mode::Playing,
        Mode::Quit => Mode::Quit,
    }
}

/// The player after a command. A player that has quit takes no more commands.
pub open spec fn applied(p: Player, c: Command) -> Player {
    if p.mode is Quit {
        p
    } else {
        match c {
            Command::Quit => Player { mode: Mode::Quit, ..p },
            Command::TogglePause => Player { mode: toggled(p.mode), ..p },
            Command::VolumeDown => Player { volume: lowered(p.volume), ..p },
            Command::VolumeUp => Player { volume: raised(p.volume), ..p },
        }
    }
}

/// The action that a command asks of the audio output.
pub open spec fn action_of(p: Player, c: Command) -> Action {
    if p.mode is Quit {
        Action::Nothing
    } else {
        match c {
            Command::Quit => Action::Quit,
            Command::TogglePause => if p.mode is Playing {
                Action::Pause
            } else {
                Action::Resume
            },
            Command::VolumeDown => if p.volume > VOLUME_FLOOR {
                Action::SetVolume(lowered(p.volume))
            } else {
                Action::Nothing
            },
            Command::VolumeUp => if p.volume < VOLUME_CEILING {
                Action::SetVolume(raised(p.volume))
            } else {
                Action::Nothing
            },
        }
    }
}

/// The command that a key stands for: `q` quits, `c` pauses or resumes,
/// `-` and `+` lower and raise the volume. Every other key means nothing.
pub open spec fn command_for(k: char) -> Option<Command> {
    if k == 'q' {
        Some(Command::Quit)
    } else if k == 'c' {
        Some(Command::TogglePause)
    } else if k == '-' {
        Some(Command::VolumeDown)
    } else if k == '+' {
        Some(Command::VolumeUp)
    } else {
        None
    }
}

/// The player after one poll. A failed poll is ignored, as is an idle one.
pub open spec fn next(p: Player, i: Input) -> Player {
    match i {
        Input::Key(k) => match command_for(k) {
            Some(c) => applied(p, c),
            None => p,
        },
        _ => p,
    }
}

/// The action after one poll.
pub open spec fn response(p: Player, i: Input) -> Action {
    match i {
        Input::Key(k) => match command_for(k) {
            Some(c) => action_of(p, c),
            None => Action::Nothing,
        },
        _ => Action::Nothing,
    }
}

/// The player after a whole sequence of polls, taken in order.
pub open spec fn run(p: Player, inputs: Seq<Input>) -> Player
    decreases inputs.len(),
{
    if inputs.len() == 0 {
        p
    } else {
        next(run(p, inputs.drop_last()), inputs.last())
    }
}

impl Command {
    /// The command that a key stands for, if any.
    pub fn from_key(k: char) -> (r: Option<Command>)
        ensures
            r == command_for(k),
    {
        if k == 'q' {
            Some(Command::Quit)
        } else if k == 'c' {
            Some(Command::TogglePause)
        } else if k == '-' {
            Some(Command::VolumeDown)
        } else if k == '+' {
            Some(Command::VolumeUp)
        } else {
            None
        }
    }
}

impl Player {
    /// A session that has just started: playing, at the output's default volume.
    pub fn new() -> (r: Player)
        ensures
            r.mode == Mode::Playing,
            r.volume == DEFAULT_VOLUME,
    {
        Player { mode: Mode::Playing, volume: DEFAULT_VOLUME }
    }

    /// Lowers the volume by one tenth when it is above the floor.
    pub fn volume_down(&mut self) -> (r: Action)
        ensures
            final(self).mode == old(self).mode,
            final(self).volume == lowered(old(self).volume),
            r == (if old(self).volume > VOLUME_FLOOR {
                Action::SetVolume(lowered(old(self).volume))
            } else {
                Action::Nothing
            }),
    {
        if self.volume > VOLUME_FLOOR {
            self.volume = self.volume - 1;
            Action::SetVolume(self.volume)
        } else {
            Action::Nothing
        }
    }

    /// Raises the volume by one tenth when it is below the ceiling.
    pub fn volume_up(&mut self) -> (r: Action)
        ensures
            final(self).mode == old(self).mode,
            final(self).volume == raised(old(self).volume),
            r == (if old(self).volume < VOLUME_CEILING {
                Action::SetVolume(raised(old(self).volume))
            } else {
                Action::Nothing
            }),
    {
        if self.volume < VOLUME_CEILING {
            self.volume = self.volume + 1;
            Action::SetVolume(self.volume)
        } else {
            Action::Nothing
        }
    }

    /// Pauses a playing session or resumes a paused one.
    pub fn toggle_pause(&mut self) -> (r: Action)
        ensures
            final(self).mode == toggled(old(self).mode),
            final(self).volume == old(self).volume,
            r == (match old(self).mode {
                Mode::Playing => Action::Pause,
                Mode::Paused => Action::Resume,
                Mode::Quit => Action::Nothing,
            }),
    {
        match self.mode {
            Mode::Playing => {
                self.mode = Mode::Paused;
                Action::Pause
            },
            Mode::Paused => {
                self.mode = Mode::Playing;
                Action::Resume
            },
            Mode::Quit => Action::Nothing,
        }
    }

    /// Carries out one command and returns what the audio output must do.
    pub fn apply(&mut self, c: Command) -> (r: Action)
        ensures
            *final(self) == applied(*old(self), c),
            r == action_of(*old(self), c),
    {
        if self.mode == Mode::Quit {
            return Action::Nothing;
        }
        match c {
            Command::Quit => {
                self.mode = Mode::Quit;
                Action::Quit
            },
            Command::TogglePause => self.toggle_pause(),
            Command::VolumeDown => self.volume_down(),
            Command::VolumeUp => self.volume_up(),
        }
    }

    /// Handles one poll of the terminal and returns what the audio output
    /// must do.
    pub fn handle_input(&mut self, i: Input) -> (r: Action)
        ensures
            *final(self) == next(*old(self), i),
            r == response(*old(self), i),
    {
        match i {
            Input::Key(k) => match Command::from_key(k) {
                Some(c) => self.apply(c),
                None => Action::Nothing,
            },
            _ => Action::Nothing,
        }
    }

    /// Whether the session is paused.
    pub fn is_paused(&self) -> (r: bool)
        ensures
            r == (self.mode is Paused),
    {
        self.mode == Mode::Paused
    }

    /// Whether the control loop should keep going.
    pub fn is_running(&self) -> (r: bool)
        ensures
            r == !(self.mode is Quit),
    {
        self.mode != Mode::Quit
    }

    /// Whether the control loop should wait before its next poll: only while
    /// audio is still queued and output is not paused. Finishing the audio
    /// does not end the loop.
    pub fn should_pace(&self, finished: bool) -> (r: bool)
        ensures
            r == (!finished && self.mode is Playing),
    {
        !finished && self.mode == Mode::Playing
    }
}

} // verus!
