//! The faults with which the engine rejects an operation.

use vstd::prelude::*;

verus! {

/// Why an operation was rejected.  A rejected operation changes nothing.
#[derive(Clone, Copy, Debug, PartialEq, Eq, Structural)]
pub enum GameError {
    /// The hub was already configured.
    AlreadyInitialized,
    /// No match is stored under the given id.
    GameNotFound,
    /// The match has left the setup phase.
    NotInSetup,
    /// The match is not being played: still in setup, or already over.
    NotInProgress,
    /// The second seat is already taken.
    SeatTaken,
    /// The creator of a match tried to take its second seat.
    SelfJoin,
    /// This side has committed a board before.
    BoardAlreadyCommitted,
    /// The all-zero hash, which marks a side as uncommitted, was offered as a
    /// commitment.
    ZeroBoardHash,
    /// A board was committed by someone who holds no seat.
    NotAPlayerInGame,
    /// A shot or a scan was declared by the side whose turn it is not.
    NotYourTurn,
    /// A shot is outstanding and its result has not been reported.
    AwaitingHitReport,
    /// A scan is outstanding and its count has not been reported.
    AwaitingSonarReport,
    /// A result was reported while no shot is outstanding.
    NoShotToReport,
    /// A count was reported while no scan is outstanding.
    NoSonarToReport,
    /// A report came from someone other than the defender.
    WrongReporter,
    /// A shot was aimed outside the board.
    ShotOutOfBounds,
    /// A scan was centred outside the board.
    SonarOutOfBounds,
    /// A reported scan count exceeds the nine cells of a scan.
    InvalidSonarCount,
    /// The side has not yet taken the actions that unlock its scan.
    SonarNotAvailable,
    /// The side has spent its one scan.
    SonarAlreadyUsed,
    /// Victory was claimed with fewer hits than the fleet has cells.
    NotEnoughHits,
    /// Victory was claimed by someone who holds no seat.
    NotAPlayer,
    /// The named principal has not authorized the operation.
    Unauthorized,
}

impl GameError {
    /// The message that distinguishes this fault.
    pub open spec fn text(self) -> Seq<char> {
        match self {
            GameError::AlreadyInitialized => "already initialized"@,
            GameError::GameNotFound => "game not found"@,
            GameError::NotInSetup => "game not in setup phase"@,
            GameError::NotInProgress => "game not in progress"@,
            GameError::SeatTaken => "player 2 already joined"@,
            GameError::SelfJoin => "cannot join your own game"@,
            GameError::BoardAlreadyCommitted => "board already committed"@,
            GameError::ZeroBoardHash => "board hash is all zero"@,
            GameError::NotAPlayerInGame => "not a player in this game"@,
            GameError::NotYourTurn => "not your turn"@,
            GameError::AwaitingHitReport => "waiting for hit report"@,
            GameError::AwaitingSonarReport => "waiting for sonar report"@,
            GameError::NoShotToReport => "no shot to report on"@,
            GameError::NoSonarToReport => "no sonar to report on"@,
            GameError::WrongReporter => "wrong player reporting"@,
            GameError::ShotOutOfBounds => "shot out of bounds"@,
            GameError::SonarOutOfBounds => "sonar out of bounds"@,
            GameError::InvalidSonarCount => "invalid sonar count"@,
            GameError::SonarNotAvailable => "sonar not available this turn"@,
            GameError::SonarAlreadyUsed => "sonar already used"@,
            GameError::NotEnoughHits => "not enough hits to win"@,
            GameError::NotAPlayer => "not a player"@,
            GameError::Unauthorized => "unauthorized"@,
        }
    }

    /// The message that distinguishes this fault, for display.
    pub fn message(&self) -> (text: &'static str)
        ensures
            text@ == self.text(),
    {
        match self {
            GameError::AlreadyInitialized => "already initialized",
            GameError::GameNotFound => "game not found",
            GameError::NotInSetup => "game not in setup phase",
            GameError::NotInProgress => "game not in progress",
            GameError::SeatTaken => "player 2 already joined",
            GameError::SelfJoin => "cannot join your own game",
            GameError::BoardAlreadyCommitted => "board already committed",
            GameError::ZeroBoardHash => "board hash is all zero",
            GameError::NotAPlayerInGame => "not a player in this game",
            GameError::NotYourTurn => "not your turn",
            GameError::AwaitingHitReport => "waiting for hit report",
            GameError::AwaitingSonarReport => "waiting for sonar report",
            GameError::NoShotToReport => "no shot to report on",
            GameError::NoSonarToReport => "no sonar to report on",
            GameError::WrongReporter => "wrong player reporting",
            GameError::ShotOutOfBounds => "shot out of bounds",
            GameError::SonarOutOfBounds => "sonar out of bounds",
            GameError::InvalidSonarCount => "invalid sonar count",
            GameError::SonarNotAvailable => "sonar not available this turn",
            GameError::SonarAlreadyUsed => "sonar already used",
            GameError::NotEnoughHits => "not enough hits to win",
            GameError::NotAPlayer => "not a player",
            GameError::Unauthorized => "unauthorized",
        }
    }
}

} // verus!
