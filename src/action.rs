//! Playback actions, and the steps that apply one to a player.

use vstd::prelude::*;
use vstd::string::*;

use crate::text::same_text;

verus! {

/// A playback command, as named on the command line.
#[derive(Clone, Copy, Debug, PartialEq, Eq, Structural)]
pub enum PlayerctlAction {
    PlayPause,
    Play,
    Pause,
    Stop,
    Next,
    Prev,
    Shuffle,
}

/// The playback status a player reports.
#[derive(Clone, Copy, Debug, PartialEq, Eq, Structural)]
pub enum PlaybackStatus {
    Playing,
    Paused,
    Stopped,
}

/// The symbolic icon shown after an action.
#[derive(Clone, Copy, Debug, PartialEq, Eq, Structural)]
pub enum IconToken {
    Play,
    Pause,
    Stop,
    SeekForward,
    SeekBackward,
    ShuffleOn,
    ShuffleOff,
}

/// One operation to perform on a player endpoint.
#[derive(Clone, Copy, Debug, PartialEq, Eq, Structural)]
pub enum PlayerOp {
    ReadStatus,
    ReadShuffle,
    Play,
    Pause,
    Stop,
    Next,
    Previous,
    SetShuffle(bool),
}

/// What a player answered to an operation.
#[derive(Clone, Copy, Debug, PartialEq, Eq, Structural)]
pub enum OpReply {
    Done,
    Status(PlaybackStatus),
    Shuffle(bool),
    Failed,
}

/// An operation on a player failed, or got an answer that does not fit it.
#[derive(Clone, Copy, Debug, PartialEq, Eq, Structural)]
pub struct PlayerError {
    pub op: PlayerOp,
}

/// What to do after a reply: issue another operation, or stop with an outcome.
#[derive(Clone, Copy, Debug)]
pub enum DispatchStep {
    Issue(PlayerOp),
    Finished(Result<IconToken, PlayerError>),
}

/// The action named by `name`, if any.
pub open spec fn action_named(name: Seq<char>) -> Option<PlayerctlAction> {
    if name == "play-pause"@ {
        Some(PlayerctlAction::PlayPause)
    } else if name == "play"@ {
        Some(PlayerctlAction::Play)
    } else if name == "pause"@ {
        Some(PlayerctlAction::Pause)
    } else if name == "stop"@ {
        Some(PlayerctlAction::Stop)
    } else if name == "next"@ {
        Some(PlayerctlAction::Next)
    } else if name == "prev"@ || name == "previous"@ {
        Some(PlayerctlAction::Prev)
    } else if name == "shuffle"@ {
        Some(PlayerctlAction::Shuffle)
    } else {
        None
    }
}

pub open spec fn icon_name(t: IconToken) -> Seq<char> {
    match t {
        IconToken::Play => "play-large-symbolic"@,
        IconToken::Pause => "pause-large-symbolic"@,
        IconToken::Stop => "stop-large-symbolic"@,
        IconToken::SeekForward => "media-seek-forward-symbolic"@,
        IconToken::SeekBackward => "media-seek-backward-symbolic"@,
        IconToken::ShuffleOn => "playlist-shuffle-symbolic"@,
        IconToken::ShuffleOff => "playlist-consecutive-symbolic"@,
    }
}

impl IconToken {
    /// The icon's name in the symbolic icon theme.
    pub fn name(&self) -> (r: &'static str)
        ensures
            r@ == icon_name(*self),
    {
        match self {
            IconToken::Play => "play-large-symbolic",
            IconToken::Pause => "pause-large-symbolic",
            IconToken::Stop => "stop-large-symbolic",
            IconToken::SeekForward => "media-seek-forward-symbolic",
            IconToken::SeekBackward => "media-seek-backward-symbolic",
            IconToken::ShuffleOn => "playlist-shuffle-symbolic",
            IconToken::ShuffleOff => "playlist-consecutive-symbolic",
        }
    }
}

impl PlayerctlAction {
    /// Parses a command name; an unknown name is handed back as the error.
    pub fn from(action: &str) -> (r: Result<Self, String>)
        ensures
            match action_named(action@) {
                Some(a) => r == Ok::<PlayerctlAction, String>(a),
                None => r is Err && r->Err_0@ == action@,
            },
    {
        if same_text(action, "play-pause") {
            Ok(PlayerctlAction::PlayPause)
        } else if same_text(action, "play") {
            Ok(PlayerctlAction::Play)
        } else if same_text(action, "pause") {
            Ok(PlayerctlAction::Pause)
        } else if same_text(action, "stop") {
            Ok(PlayerctlAction::Stop)
        } else if same_text(action, "next") {
            Ok(PlayerctlAction::Next)
        } else if same_text(action, "prev") || same_text(action, "previous") {
            Ok(PlayerctlAction::Prev)
        } else if same_text(action, "shuffle") {
            Ok(PlayerctlAction::Shuffle)
        } else {
            Err(String::from_str(action))
        }
    }

    /// The operation an action starts with: a read for the toggles, the
    /// command itself otherwise.
    pub open spec fn opening(self) -> PlayerOp {
        match self {
            PlayerctlAction::PlayPause => PlayerOp::ReadStatus,
            PlayerctlAction::Shuffle => PlayerOp::ReadShuffle,
            PlayerctlAction::Play => PlayerOp::Play,
            PlayerctlAction::Pause => PlayerOp::Pause,
            PlayerctlAction::Stop => PlayerOp::Stop,
            PlayerctlAction::Next => PlayerOp::Next,
            PlayerctlAction::Prev => PlayerOp::Previous,
        }
    }

    pub fn first_op(&self) -> (r: PlayerOp)
        ensures
            r == self.opening(),
    {
        match self {
            PlayerctlAction::PlayPause => PlayerOp::ReadStatus,
            PlayerctlAction::Shuffle => PlayerOp::ReadShuffle,
            PlayerctlAction::Play => PlayerOp::Play,
            PlayerctlAction::Pause => PlayerOp::Pause,
            PlayerctlAction::Stop => PlayerOp::Stop,
            PlayerctlAction::Next => PlayerOp::Next,
            PlayerctlAction::Prev => PlayerOp::Previous,
        }
    }

    /// Whether the action moves to another track.
    pub open spec fn is_seek(self) -> bool {
        self == PlayerctlAction::Next || self == PlayerctlAction::Prev
    }

    pub fn seeks(&self) -> (r: bool)
        ensures
            r == self.is_seek(),
    {
        matches!(self, PlayerctlAction::Next | PlayerctlAction::Prev)
    }
}

impl PlayerOp {
    /// The next step after `self` got `reply`. A read is followed by the
    /// command that toggles what was read; a command that succeeded ends the
    /// dispatch with its icon; a failure ends it with an error.
    pub open spec fn after(self, reply: OpReply) -> DispatchStep {
        match (self, reply) {
            (_, OpReply::Failed) => DispatchStep::Finished(Err(PlayerError { op: self })),
            (PlayerOp::ReadStatus, OpReply::Status(PlaybackStatus::Playing)) => DispatchStep::Issue(PlayerOp::Pause),
            (PlayerOp::ReadStatus, OpReply::Status(_)) => DispatchStep::Issue(PlayerOp::Play),
            (PlayerOp::ReadShuffle, OpReply::Shuffle(on)) => DispatchStep::Issue(PlayerOp::SetShuffle(!on)),
            (PlayerOp::Play, OpReply::Done) => DispatchStep::Finished(Ok(IconToken::Play)),
            (PlayerOp::Pause, OpReply::Done) => DispatchStep::Finished(Ok(IconToken::Pause)),
            (PlayerOp::Stop, OpReply::Done) => DispatchStep::Finished(Ok(IconToken::Stop)),
            (PlayerOp::Next, OpReply::Done) => DispatchStep::Finished(Ok(IconToken::SeekForward)),
            (PlayerOp::Previous, OpReply::Done) => DispatchStep::Finished(Ok(IconToken::SeekBackward)),
            (PlayerOp::SetShuffle(true), OpReply::Done) => DispatchStep::Finished(Ok(IconToken::ShuffleOn)),
            (PlayerOp::SetShuffle(false), OpReply::Done) => DispatchStep::Finished(Ok(IconToken::ShuffleOff)),
            _ => DispatchStep::Finished(Err(PlayerError { op: self })),
        }
    }

    pub fn on_reply(&self, reply: OpReply) -> (r: DispatchStep)
        ensures
            r == self.after(reply),
    {
        match (*self, reply) {
            (_, OpReply::Failed) => DispatchStep::Finished(Err(PlayerError { op: *self })),
            (PlayerOp::ReadStatus, OpReply::Status(PlaybackStatus::Playing)) => DispatchStep::Issue(PlayerOp::Pause),
            (PlayerOp::ReadStatus, OpReply::Status(_)) => DispatchStep::Issue(PlayerOp::Play),
            (PlayerOp::ReadShuffle, OpReply::Shuffle(on)) => DispatchStep::Issue(PlayerOp::SetShuffle(!on)),
            (PlayerOp::Play, OpReply::Done) => DispatchStep::Finished(Ok(IconToken::Play)),
            (PlayerOp::Pause, OpReply::Done) => DispatchStep::Finished(Ok(IconToken::Pause)),
            (PlayerOp::Stop, OpReply::Done) => DispatchStep::Finished(Ok(IconToken::Stop)),
            (PlayerOp::Next, OpReply::Done) => DispatchStep::Finished(Ok(IconToken::SeekForward)),
            (PlayerOp::Previous, OpReply::Done) => DispatchStep::Finished(Ok(IconToken::SeekBackward)),
            (PlayerOp::SetShuffle(true), OpReply::Done) => DispatchStep::Finished(Ok(IconToken::ShuffleOn)),
            (PlayerOp::SetShuffle(false), OpReply::Done) => DispatchStep::Finished(Ok(IconToken::ShuffleOff)),
            _ => DispatchStep::Finished(Err(PlayerError { op: *self })),
        }
    }
}

/// The part of a player's state that the actions read and change.
pub struct PlayerModel {
    pub status: PlaybackStatus,
    pub shuffle: bool,
}

/// A player on which every operation succeeds: its reply and its next state.
pub open spec fn perform(s: PlayerModel, op: PlayerOp) -> (OpReply, PlayerModel) {
    match op {
        PlayerOp::ReadStatus => (OpReply::Status(s.status), s),
        PlayerOp::ReadShuffle => (OpReply::Shuffle(s.shuffle), s),
        PlayerOp::Play => (OpReply::Done, PlayerModel { status: PlaybackStatus::Playing, ..s }),
        PlayerOp::Pause => (OpReply::Done, PlayerModel { status: PlaybackStatus::Paused, ..s }),
        PlayerOp::Stop => (OpReply::Done, PlayerModel { status: PlaybackStatus::Stopped, ..s }),
        PlayerOp::Next | PlayerOp::Previous => (OpReply::Done, s),
        PlayerOp::SetShuffle(on) => (OpReply::Done, PlayerModel { shuffle: on, ..s }),
    }
}

/// Runs the dispatch steps from `op` against the model player, for at most
/// `fuel` further operations.
pub open spec fn drive(s: PlayerModel, op: PlayerOp, fuel: nat) -> (Result<IconToken, PlayerError>, PlayerModel)
    decreases fuel,
{
    let (reply, s2) = perform(s, op);
    match op.after(reply) {
        DispatchStep::Finished(r) => (r, s2),
        DispatchStep::Issue(next) => if fuel == 0 {
            (Err(PlayerError { op: next }), s2)
        } else {
            drive(s2, next, (fuel - 1) as nat)
        },
    }
}

/// Dispatching `a` against the model player: at most two operations.
pub open spec fn dispatch_on(a: PlayerctlAction, s: PlayerModel) -> (Result<IconToken, PlayerError>, PlayerModel) {
    drive(s, a.opening(), 1)
}

/// Play-pause on a playing player pauses it and shows the pause icon; on a
/// paused or stopped one it starts playback and shows the play icon.
pub proof fn play_pause_toggles(s: PlayerModel)
    ensures
        s.status == PlaybackStatus::Playing ==> dispatch_on(PlayerctlAction::PlayPause, s) == (
            Ok::<IconToken, PlayerError>(IconToken::Pause),
            PlayerModel { status: PlaybackStatus::Paused, ..s },
        ),
        s.status != PlaybackStatus::Playing ==> dispatch_on(PlayerctlAction::PlayPause, s) == (
            Ok::<IconToken, PlayerError>(IconToken::Play),
            PlayerModel { status: PlaybackStatus::Playing, ..s },
        ),
{
    reveal_with_fuel(drive, 2);
}

/// Shuffle twice gives the player back its shuffle flag, and the two icons
/// alternate: the first names the new state, the second the old one.
pub proof fn shuffle_twice_restores(s: PlayerModel)
    ensures
        ({
            let (r1, s1) = dispatch_on(PlayerctlAction::Shuffle, s);
            let (r2, s2) = dispatch_on(PlayerctlAction::Shuffle, s1);
            &&& s1.shuffle == !s.shuffle
            &&& s2 == s
            &&& r1 == Ok::<IconToken, PlayerError>(if s.shuffle { IconToken::ShuffleOff } else { IconToken::ShuffleOn })
            &&& r2 == Ok::<IconToken, PlayerError>(if s.shuffle { IconToken::ShuffleOn } else { IconToken::ShuffleOff })
        }),
{
    reveal_with_fuel(drive, 2);
}

} // verus!
