//! The rules of a match: which action is accepted in which state, and what
//! an accepted action does to the record.
//!
//! The rules are stated once, over the model, by [`fault`] and [`effect`].
//! Each transition of [`Game`] is proved to follow them.

use vstd::prelude::*;
use crate::address::Address;
use crate::error::GameError;
use crate::record::{
    is_zero_hash, zero_hash, Game, GameView, BOARD_SIDE, FLEET_CELLS, SONAR_CELLS,
    SONAR_UNLOCK_TURNS, STATUS_COMPLETED, STATUS_CREATED, STATUS_IN_PROGRESS,
};

verus! {

/// What a principal may ask of a match that exists.
pub enum Action {
    /// Take the second seat.
    Join { player: Seq<char> },
    /// Commit to a board layout.
    Commit { player: Seq<char>, hash: Seq<u8> },
    /// Declare a shot at a cell.
    Shot { player: Seq<char>, x: nat, y: nat },
    /// Report whether the outstanding shot hit.
    Report { player: Seq<char>, hit: bool },
    /// Declare a scan centred on a cell.
    Sonar { player: Seq<char>, x: nat, y: nat },
    /// Report how many ship cells the outstanding scan covers.
    SonarReport { player: Seq<char>, count: nat },
    /// Claim victory.
    Claim { player: Seq<char> },
}

impl Action {
    /// The principal that asks, and that must have authorized the action.
    pub open spec fn actor(self) -> Seq<char> {
        match self {
            Action::Join { player } => player,
            Action::Commit { player, .. } => player,
            Action::Shot { player, .. } => player,
            Action::Report { player, .. } => player,
            Action::Sonar { player, .. } => player,
            Action::SonarReport { player, .. } => player,
            Action::Claim { player } => player,
        }
    }
}

/// Why taking the second seat is refused, if it is.
pub open spec fn join_fault(g: GameView, player: Seq<char>) -> Option<GameError> {
    if g.status != STATUS_CREATED {
        Some(GameError::NotInSetup)
    } else if !g.seat_open() {
        Some(GameError::SeatTaken)
    } else if player == g.player1 {
        Some(GameError::SelfJoin)
    } else {
        None
    }
}

/// Why a board commitment is refused, if it is.  While the second seat is
/// open only the creator holds a seat, and commits for the first side.  A
/// side commits once, and never the all-zero hash, which would count a board
/// without recording one.
pub open spec fn commit_fault(g: GameView, player: Seq<char>, hash: Seq<u8>) -> Option<
    GameError,
> {
    if g.status != STATUS_CREATED {
        Some(GameError::NotInSetup)
    } else if player == g.player1 {
        if g.board_hash1 != zero_hash() {
            Some(GameError::BoardAlreadyCommitted)
        } else if hash == zero_hash() {
            Some(GameError::ZeroBoardHash)
        } else {
            None
        }
    } else if !g.seat_open() && player == g.player2 {
        if g.board_hash2 != zero_hash() {
            Some(GameError::BoardAlreadyCommitted)
        } else if hash == zero_hash() {
            Some(GameError::ZeroBoardHash)
        } else {
            None
        }
    } else {
        Some(GameError::NotAPlayerInGame)
    }
}

/// Why a shot is refused, if it is.
pub open spec fn shot_fault(g: GameView, player: Seq<char>, x: nat, y: nat) -> Option<GameError> {
    if g.status != STATUS_IN_PROGRESS {
        Some(GameError::NotInProgress)
    } else if g.awaiting_report {
        Some(GameError::AwaitingHitReport)
    } else if !(x < BOARD_SIDE && y < BOARD_SIDE) {
        Some(GameError::ShotOutOfBounds)
    } else if player != g.shooter() {
        Some(GameError::NotYourTurn)
    } else if g.awaiting_sonar {
        Some(GameError::AwaitingSonarReport)
    } else {
        None
    }
}

/// Why a hit report is refused, if it is.
pub open spec fn report_fault(g: GameView, player: Seq<char>) -> Option<GameError> {
    if g.status != STATUS_IN_PROGRESS {
        Some(GameError::NotInProgress)
    } else if !g.awaiting_report {
        Some(GameError::NoShotToReport)
    } else if player != g.defender() {
        Some(GameError::WrongReporter)
    } else {
        None
    }
}

/// Why the side to move is refused a scan, whoever asks: it has spent its
/// scan, or has not yet taken the actions that unlock it.
pub open spec fn sonar_gate(g: GameView) -> Option<GameError> {
    let (used, taken) = if g.turn == 1 {
        (g.p1_sonar_used, g.p1_turns_taken)
    } else {
        (g.p2_sonar_used, g.p2_turns_taken)
    };
    if used {
        Some(GameError::SonarAlreadyUsed)
    } else if taken < SONAR_UNLOCK_TURNS {
        Some(GameError::SonarNotAvailable)
    } else {
        None
    }
}

/// Why a scan is refused, if it is.
pub open spec fn sonar_fault(g: GameView, player: Seq<char>, x: nat, y: nat) -> Option<GameError> {
    if g.status != STATUS_IN_PROGRESS {
        Some(GameError::NotInProgress)
    } else if g.awaiting_report {
        Some(GameError::AwaitingHitReport)
    } else if g.awaiting_sonar {
        Some(GameError::AwaitingSonarReport)
    } else if !(x < BOARD_SIDE && y < BOARD_SIDE) {
        Some(GameError::SonarOutOfBounds)
    } else if player != g.shooter() {
        Some(GameError::NotYourTurn)
    } else {
        sonar_gate(g)
    }
}

/// Why a scan report is refused, if it is.
pub open spec fn sonar_report_fault(g: GameView, player: Seq<char>, count: nat) -> Option<
    GameError,
> {
    if g.status != STATUS_IN_PROGRESS {
        Some(GameError::NotInProgress)
    } else if !g.awaiting_sonar {
        Some(GameError::NoSonarToReport)
    } else if count > SONAR_CELLS {
        Some(GameError::InvalidSonarCount)
    } else if player != g.defender() {
        Some(GameError::WrongReporter)
    } else {
        None
    }
}

/// Why nothing but a report is accepted right now, if a report is owed.
pub open spec fn owed_report(g: GameView) -> Option<GameError> {
    if g.awaiting_report {
        Some(GameError::AwaitingHitReport)
    } else if g.awaiting_sonar {
        Some(GameError::AwaitingSonarReport)
    } else {
        None
    }
}

/// Why a victory claim is refused, if it is.  A side with a fleet's worth of
/// hits may claim once no report is owed.
pub open spec fn claim_fault(g: GameView, player: Seq<char>) -> Option<GameError> {
    if g.status != STATUS_IN_PROGRESS {
        Some(GameError::NotInProgress)
    } else if player == g.player1 {
        if g.p1_hits < FLEET_CELLS {
            Some(GameError::NotEnoughHits)
        } else {
            owed_report(g)
        }
    } else if player == g.player2 {
        if g.p2_hits < FLEET_CELLS {
            Some(GameError::NotEnoughHits)
        } else {
            owed_report(g)
        }
    } else {
        Some(GameError::NotAPlayer)
    }
}

/// Why `action` is refused in state `g`: the first check that fails, or `None`
/// when the action is accepted.
pub open spec fn fault(g: GameView, action: Action) -> Option<GameError> {
    match action {
        Action::Join { player } => join_fault(g, player),
        Action::Commit { player, hash } => commit_fault(g, player, hash),
        Action::Shot { player, x, y } => shot_fault(g, player, x, y),
        Action::Report { player, .. } => report_fault(g, player),
        Action::Sonar { player, x, y } => sonar_fault(g, player, x, y),
        Action::SonarReport { player, count } => sonar_report_fault(g, player, count),
        Action::Claim { player } => claim_fault(g, player),
    }
}

/// The record after `player` has committed `hash`.  The second commitment
/// starts the play.
pub open spec fn committed(g: GameView, player: Seq<char>, hash: Seq<u8>) -> GameView {
    let boards = g.boards_committed + 1;
    let status = if boards == 2 {
        STATUS_IN_PROGRESS as nat
    } else {
        g.status
    };
    if player == g.player1 {
        GameView { board_hash1: hash, boards_committed: boards, status, ..g }
    } else {
        GameView { board_hash2: hash, boards_committed: boards, status, ..g }
    }
}

/// The record after the side to move has declared a shot at `(x, y)`: the
/// shot is outstanding and counts as an action of that side.
pub open spec fn shot(g: GameView, x: nat, y: nat) -> GameView {
    let counted = if g.turn == 1 {
        GameView { p1_turns_taken: g.p1_turns_taken + 1, ..g }
    } else {
        GameView { p2_turns_taken: g.p2_turns_taken + 1, ..g }
    };
    GameView { last_shot_x: x, last_shot_y: y, awaiting_report: true, ..counted }
}

/// The record after the defender has reported on the outstanding shot: a hit
/// is credited to the shooter, and the turn passes.
pub open spec fn reported(g: GameView, hit: bool) -> GameView {
    let credited = if !hit {
        g
    } else if g.turn == 1 {
        GameView { p1_hits: g.p1_hits + 1, ..g }
    } else {
        GameView { p2_hits: g.p2_hits + 1, ..g }
    };
    GameView { awaiting_report: false, turn: g.next_turn(), ..credited }
}

/// The record after the side to move has declared a scan centred on
/// `(x, y)`.  The scan is spent and counts as an action; the turn does not
/// pass until the count is reported.
pub open spec fn scanned(g: GameView, x: nat, y: nat) -> GameView {
    let spent = if g.turn == 1 {
        GameView { p1_sonar_used: true, p1_turns_taken: g.p1_turns_taken + 1, ..g }
    } else {
        GameView { p2_sonar_used: true, p2_turns_taken: g.p2_turns_taken + 1, ..g }
    };
    GameView { sonar_center_x: x, sonar_center_y: y, awaiting_sonar: true, ..spent }
}

/// The record after the defender has reported the count of the outstanding
/// scan: the count is kept, and the turn passes.
pub open spec fn scan_reported(g: GameView, count: nat) -> GameView {
    GameView { last_sonar_count: count, awaiting_sonar: false, turn: g.next_turn(), ..g }
}

/// What an accepted `action` makes of the record `g`.
pub open spec fn effect(g: GameView, action: Action) -> GameView {
    match action {
        Action::Join { player } => GameView { player2: player, ..g },
        Action::Commit { player, hash } => committed(g, player, hash),
        Action::Shot { x, y, .. } => shot(g, x, y),
        Action::Report { hit, .. } => reported(g, hit),
        Action::Sonar { x, y, .. } => scanned(g, x, y),
        Action::SonarReport { count, .. } => scan_reported(g, count),
        Action::Claim { .. } => GameView { status: STATUS_COMPLETED as nat, ..g },
    }
}

/// The record after `action` was asked of `g`: its effect if it is accepted,
/// `g` itself if it is refused.
pub open spec fn step(g: GameView, action: Action) -> GameView {
    if fault(g, action) is None {
        effect(g, action)
    } else {
        g
    }
}

/// The record after each of `actions` was asked in turn, starting from `g`.
pub open spec fn play(g: GameView, actions: Seq<Action>) -> GameView
    decreases actions.len(),
{
    if actions.len() == 0 {
        g
    } else {
        step(play(g, actions.drop_last()), actions.last())
    }
}

/// The counters of the record that `action` leads to can be held in machine
/// integers.  This fails only for an accepted action that would push a
/// counter past `u32::MAX`.
pub open spec fn in_range(g: GameView, action: Action) -> bool {
    step(g, action).fits()
}

/// Whatever is asked of a record with room, the record it leads to is in
/// range.
pub proof fn room_is_in_range(g: GameView, action: Action)
    requires
        g.has_room(),
    ensures
        in_range(g, action),
{
}

/// What a transition owes its caller: a refused action reports the first
/// check that failed and leaves the record alone; an accepted one puts the
/// record in the state the rules give.
pub open spec fn settled<T>(
    before: GameView,
    action: Action,
    result: Result<T, GameError>,
    after: GameView,
) -> bool {
    match fault(before, action) {
        Some(e) => result == Err::<T, GameError>(e) && after == before,
        None => result is Ok && after == effect(before, action),
    }
}

/// Whether a scan is open to `player` right now: the match is being played,
/// nothing is outstanding, it is `player`'s turn, and the side has neither
/// spent its scan nor still to unlock it.
pub open spec fn sonar_open(g: GameView, player: Seq<char>) -> bool {
    &&& g.status == STATUS_IN_PROGRESS
    &&& !g.awaiting_report
    &&& !g.awaiting_sonar
    &&& if player == g.player1 {
        g.turn == 1 && !g.p1_sonar_used && g.p1_turns_taken >= SONAR_UNLOCK_TURNS
    } else if player == g.player2 {
        g.turn == 2 && !g.p2_sonar_used && g.p2_turns_taken >= SONAR_UNLOCK_TURNS
    } else {
        false
    }
}

impl Game {
    /// Seats `player2` as the opponent.
    pub fn join_game(&mut self, player2: Address) -> (result: Result<(), GameError>)
        ensures
            settled(old(self)@, Action::Join { player: player2@ }, result, final(self)@),
            old(self)@.valid() ==> final(self)@.valid(),
    {
        if self.status != STATUS_CREATED {
            return Err(GameError::NotInSetup);
        }
        if !(self.player2 == self.player1) {
            return Err(GameError::SeatTaken);
        }
        if player2 == self.player1 {
            return Err(GameError::SelfJoin);
        }
        self.player2 = player2;
        Ok(())
    }

    /// Records `board_hash` as the commitment of `player`'s side.  Returns
    /// whether this commitment was the second, which starts the play.
    pub fn commit_board(&mut self, player: &Address, board_hash: [u8; 32]) -> (result: Result<
        bool,
        GameError,
    >)
        requires
            in_range(old(self)@, Action::Commit { player: player@, hash: board_hash@ }),
        ensures
            settled(
                old(self)@,
                Action::Commit { player: player@, hash: board_hash@ },
                result,
                final(self)@,
            ),
            old(self)@.valid() ==> final(self)@.valid(),
            result matches Ok(started) ==> started == (old(self).boards_committed == 1),
    {
        if self.status != STATUS_CREATED {
            return Err(GameError::NotInSetup);
        }
        if *player == self.player1 {
            if !is_zero_hash(&self.board_hash1) {
                return Err(GameError::BoardAlreadyCommitted);
            }
            if is_zero_hash(&board_hash) {
                return Err(GameError::ZeroBoardHash);
            }
            self.board_hash1 = board_hash;
        } else if !(self.player2 == self.player1) && *player == self.player2 {
            if !is_zero_hash(&self.board_hash2) {
                return Err(GameError::BoardAlreadyCommitted);
            }
            if is_zero_hash(&board_hash) {
                return Err(GameError::ZeroBoardHash);
            }
            self.board_hash2 = board_hash;
        } else {
            return Err(GameError::NotAPlayerInGame);
        }
        self.boards_committed = self.boards_committed + 1;
        let started = self.boards_committed == 2;
        if started {
            self.status = STATUS_IN_PROGRESS;
        }
        Ok(started)
    }

    /// Declares a shot by `player` at the cell `(x, y)`.
    pub fn take_shot(&mut self, player: &Address, x: u32, y: u32) -> (result: Result<
        (),
        GameError,
    >)
        requires
            in_range(old(self)@, Action::Shot { player: player@, x: x as nat, y: y as nat }),
        ensures
            settled(
                old(self)@,
                Action::Shot { player: player@, x: x as nat, y: y as nat },
                result,
                final(self)@,
            ),
            old(self)@.valid() ==> final(self)@.valid(),
    {
        if self.status != STATUS_IN_PROGRESS {
            return Err(GameError::NotInProgress);
        }
        if self.awaiting_report {
            return Err(GameError::AwaitingHitReport);
        }
        if !(x < BOARD_SIDE && y < BOARD_SIDE) {
            return Err(GameError::ShotOutOfBounds);
        }
        let shooter = if self.turn == 1 {
            &self.player1
        } else {
            &self.player2
        };
        if !(*player == *shooter) {
            return Err(GameError::NotYourTurn);
        }
        if self.awaiting_sonar {
            return Err(GameError::AwaitingSonarReport);
        }
        if self.turn == 1 {
            self.p1_turns_taken = self.p1_turns_taken + 1;
        } else {
            self.p2_turns_taken = self.p2_turns_taken + 1;
        }
        self.last_shot_x = x;
        self.last_shot_y = y;
        self.awaiting_report = true;
        Ok(())
    }

    /// Records the defender's word on the outstanding shot.
    pub fn report_result(&mut self, player: &Address, hit: bool) -> (result: Result<
        (),
        GameError,
    >)
        requires
            in_range(old(self)@, Action::Report { player: player@, hit }),
        ensures
            settled(old(self)@, Action::Report { player: player@, hit }, result, final(self)@),
            old(self)@.valid() ==> final(self)@.valid(),
    {
        if self.status != STATUS_IN_PROGRESS {
            return Err(GameError::NotInProgress);
        }
        if !self.awaiting_report {
            return Err(GameError::NoShotToReport);
        }
        if self.turn == 1 {
            if !(*player == self.player2) {
                return Err(GameError::WrongReporter);
            }
            if hit {
                self.p1_hits = self.p1_hits + 1;
            }
            self.turn = 2;
        } else {
            if !(*player == self.player1) {
                return Err(GameError::WrongReporter);
            }
            if hit {
                self.p2_hits = self.p2_hits + 1;
            }
            self.turn = 1;
        }
        self.awaiting_report = false;
        Ok(())
    }

    /// Declares a scan by `player`, centred on the cell `(center_x, center_y)`.
    pub fn use_sonar(&mut self, player: &Address, center_x: u32, center_y: u32) -> (result:
        Result<(), GameError>)
        requires
            in_range(
                old(self)@,
                Action::Sonar { player: player@, x: center_x as nat, y: center_y as nat },
            ),
        ensures
            settled(
                old(self)@,
                Action::Sonar { player: player@, x: center_x as nat, y: center_y as nat },
                result,
                final(self)@,
            ),
            old(self)@.valid() ==> final(self)@.valid(),
    {
        if self.status != STATUS_IN_PROGRESS {
            return Err(GameError::NotInProgress);
        }
        if self.awaiting_report {
            return Err(GameError::AwaitingHitReport);
        }
        if self.awaiting_sonar {
            return Err(GameError::AwaitingSonarReport);
        }
        if !(center_x < BOARD_SIDE && center_y < BOARD_SIDE) {
            return Err(GameError::SonarOutOfBounds);
        }
        if self.turn == 1 {
            if !(*player == self.player1) {
                return Err(GameError::NotYourTurn);
            }
            if self.p1_sonar_used {
                return Err(GameError::SonarAlreadyUsed);
            }
            if self.p1_turns_taken < SONAR_UNLOCK_TURNS {
                return Err(GameError::SonarNotAvailable);
            }
            self.p1_sonar_used = true;
            self.p1_turns_taken = self.p1_turns_taken + 1;
        } else {
            if !(*player == self.player2) {
                return Err(GameError::NotYourTurn);
            }
            if self.p2_sonar_used {
                return Err(GameError::SonarAlreadyUsed);
            }
            if self.p2_turns_taken < SONAR_UNLOCK_TURNS {
                return Err(GameError::SonarNotAvailable);
            }
            self.p2_sonar_used = true;
            self.p2_turns_taken = self.p2_turns_taken + 1;
        }
        self.sonar_center_x = center_x;
        self.sonar_center_y = center_y;
        self.awaiting_sonar = true;
        Ok(())
    }

    /// Records the defender's count for the outstanding scan.
    pub fn report_sonar(&mut self, player: &Address, count: u32) -> (result: Result<
        (),
        GameError,
    >)
        ensures
            settled(
                old(self)@,
                Action::SonarReport { player: player@, count: count as nat },
                result,
                final(self)@,
            ),
            old(self)@.valid() ==> final(self)@.valid(),
    {
        if self.status != STATUS_IN_PROGRESS {
            return Err(GameError::NotInProgress);
        }
        if !self.awaiting_sonar {
            return Err(GameError::NoSonarToReport);
        }
        if count > SONAR_CELLS {
            return Err(GameError::InvalidSonarCount);
        }
        if self.turn == 1 {
            if !(*player == self.player2) {
                return Err(GameError::WrongReporter);
            }
            self.turn = 2;
        } else {
            if !(*player == self.player1) {
                return Err(GameError::WrongReporter);
            }
            self.turn = 1;
        }
        self.last_sonar_count = count;
        self.awaiting_sonar = false;
        Ok(())
    }

    /// Ends the match in favour of `player`.  Returns whether the winner is
    /// the first side.
    pub fn claim_victory(&mut self, player: &Address) -> (result: Result<bool, GameError>)
        ensures
            settled(old(self)@, Action::Claim { player: player@ }, result, final(self)@),
            old(self)@.valid() ==> final(self)@.valid(),
            result matches Ok(player1_won) ==> player1_won == (player@ == old(self)@.player1),
    {
        if self.status != STATUS_IN_PROGRESS {
            return Err(GameError::NotInProgress);
        }
        let player1_won = if *player == self.player1 {
            if self.p1_hits < FLEET_CELLS {
                return Err(GameError::NotEnoughHits);
            }
            true
        } else if *player == self.player2 {
            if self.p2_hits < FLEET_CELLS {
                return Err(GameError::NotEnoughHits);
            }
            false
        } else {
            return Err(GameError::NotAPlayer);
        };
        if self.awaiting_report {
            return Err(GameError::AwaitingHitReport);
        }
        if self.awaiting_sonar {
            return Err(GameError::AwaitingSonarReport);
        }
        self.status = STATUS_COMPLETED;
        Ok(player1_won)
    }

    /// Whether a scan is open to `player` right now.
    pub fn sonar_available(&self, player: &Address) -> (open: bool)
        ensures
            open == sonar_open(self@, player@),
    {
        if self.status != STATUS_IN_PROGRESS || self.awaiting_report || self.awaiting_sonar {
            return false;
        }
        if *player == self.player1 {
            self.turn == 1 && !self.p1_sonar_used && self.p1_turns_taken >= SONAR_UNLOCK_TURNS
        } else if *player == self.player2 {
            self.turn == 2 && !self.p2_sonar_used && self.p2_turns_taken >= SONAR_UNLOCK_TURNS
        } else {
            false
        }
    }
}

} // verus!
