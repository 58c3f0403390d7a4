//! The match record and its mathematical model.

use vstd::prelude::*;
use crate::address::Address;

verus! {

/// The board is a square of this many cells a side; coordinates run from zero.
pub const BOARD_SIDE: u32 = 10;

/// The ship cells of one fleet: five, four, three, three and two.  A side
/// that has scored this many hits may claim victory.
pub const FLEET_CELLS: u32 = 17;

/// The actions a side must have taken before its scan is unlocked.
pub const SONAR_UNLOCK_TURNS: u32 = 3;

/// The cells that one scan covers, and so the largest count it can report.
pub const SONAR_CELLS: u32 = 9;

/// Phase of a match whose boards are not both committed.
pub const STATUS_CREATED: u32 = 0;

/// Phase of a match that is being played.
pub const STATUS_IN_PROGRESS: u32 = 1;

/// Phase of a match whose victory has been claimed.
pub const STATUS_COMPLETED: u32 = 2;

/// The bytes of a board commitment.
pub const HASH_LEN: usize = 32;

/// Everything the engine keeps about one match.
#[derive(Debug, PartialEq, Eq)]
pub struct Game {
    /// The creator of the match.
    pub player1: Address,
    /// The opponent.  While the seat is open this repeats `player1`.
    pub player2: Address,
    /// The first side's board commitment; all zero until committed.
    pub board_hash1: [u8; 32],
    /// The second side's board commitment; all zero until committed.
    pub board_hash2: [u8; 32],
    /// How many boards have been committed.
    pub boards_committed: u32,
    /// Whose turn it is to act: 1 or 2.
    pub turn: u32,
    /// Hits scored by the first side.
    pub p1_hits: u32,
    /// Hits scored by the second side.
    pub p2_hits: u32,
    /// The phase: created, in progress or completed.
    pub status: u32,
    /// The id under which the hub knows the match.
    pub session_id: u32,
    /// A shot has been declared and the defender owes its result.
    pub awaiting_report: bool,
    /// Column of the last declared shot.
    pub last_shot_x: u32,
    /// Row of the last declared shot.
    pub last_shot_y: u32,
    /// Actions (shots and scans) taken by the first side.
    pub p1_turns_taken: u32,
    /// Actions (shots and scans) taken by the second side.
    pub p2_turns_taken: u32,
    /// The first side has spent its scan.
    pub p1_sonar_used: bool,
    /// The second side has spent its scan.
    pub p2_sonar_used: bool,
    /// A scan has been declared and the defender owes its count.
    pub awaiting_sonar: bool,
    /// Column of the centre of the last declared scan.
    pub sonar_center_x: u32,
    /// Row of the centre of the last declared scan.
    pub sonar_center_y: u32,
    /// The count reported for the last scan.
    pub last_sonar_count: u32,
}

/// The mathematical model of a match record: principals as the text of their
/// keys, commitments as byte sequences, counters as natural numbers.
pub struct GameView {
    pub player1: Seq<char>,
    pub player2: Seq<char>,
    pub board_hash1: Seq<u8>,
    pub board_hash2: Seq<u8>,
    pub boards_committed: nat,
    pub turn: nat,
    pub p1_hits: nat,
    pub p2_hits: nat,
    pub status: nat,
    pub session_id: nat,
    pub awaiting_report: bool,
    pub last_shot_x: nat,
    pub last_shot_y: nat,
    pub p1_turns_taken: nat,
    pub p2_turns_taken: nat,
    pub p1_sonar_used: bool,
    pub p2_sonar_used: bool,
    pub awaiting_sonar: bool,
    pub sonar_center_x: nat,
    pub sonar_center_y: nat,
    pub last_sonar_count: nat,
}

impl View for Game {
    type V = GameView;

    open spec fn view(&self) -> GameView {
        GameView {
            player1: self.player1@,
            player2: self.player2@,
            board_hash1: self.board_hash1@,
            board_hash2: self.board_hash2@,
            boards_committed: self.boards_committed as nat,
            turn: self.turn as nat,
            p1_hits: self.p1_hits as nat,
            p2_hits: self.p2_hits as nat,
            status: self.status as nat,
            session_id: self.session_id as nat,
            awaiting_report: self.awaiting_report,
            last_shot_x: self.last_shot_x as nat,
            last_shot_y: self.last_shot_y as nat,
            p1_turns_taken: self.p1_turns_taken as nat,
            p2_turns_taken: self.p2_turns_taken as nat,
            p1_sonar_used: self.p1_sonar_used,
            p2_sonar_used: self.p2_sonar_used,
            awaiting_sonar: self.awaiting_sonar,
            sonar_center_x: self.sonar_center_x as nat,
            sonar_center_y: self.sonar_center_y as nat,
            last_sonar_count: self.last_sonar_count as nat,
        }
    }
}

/// The commitment that stands for "no board committed": thirty-two zero bytes.
pub open spec fn zero_hash() -> Seq<u8> {
    Seq::new(HASH_LEN as nat, |i: int| 0u8)
}

/// The record of a match that `player1` has just created under `session_id`:
/// the second seat open, no board committed, the first side to move.
pub open spec fn opened(player1: Seq<char>, session_id: nat) -> GameView {
    GameView {
        player1,
        player2: player1,
        board_hash1: zero_hash(),
        board_hash2: zero_hash(),
        boards_committed: 0,
        turn: 1,
        p1_hits: 0,
        p2_hits: 0,
        status: STATUS_CREATED as nat,
        session_id,
        awaiting_report: false,
        last_shot_x: 0,
        last_shot_y: 0,
        p1_turns_taken: 0,
        p2_turns_taken: 0,
        p1_sonar_used: false,
        p2_sonar_used: false,
        awaiting_sonar: false,
        sonar_center_x: 0,
        sonar_center_y: 0,
        last_sonar_count: 0,
    }
}

impl GameView {
    /// The second seat has not been taken.
    pub open spec fn seat_open(self) -> bool {
        self.player2 == self.player1
    }

    /// The side that `turn` names: the one to act, and the one that declared
    /// the outstanding shot or scan.
    pub open spec fn shooter(self) -> Seq<char> {
        if self.turn == 1 {
            self.player1
        } else {
            self.player2
        }
    }

    /// The opponent of the shooter: the one that owes the report.
    pub open spec fn defender(self) -> Seq<char> {
        if self.turn == 1 {
            self.player2
        } else {
            self.player1
        }
    }

    /// The turn after this one.
    pub open spec fn next_turn(self) -> nat {
        if self.turn == 1 {
            2
        } else {
            1
        }
    }

    /// Every counter can be held in the record's machine integers.
    pub open spec fn fits(self) -> bool {
        &&& self.boards_committed <= u32::MAX
        &&& self.p1_hits <= u32::MAX
        &&& self.p2_hits <= u32::MAX
        &&& self.p1_turns_taken <= u32::MAX
        &&& self.p2_turns_taken <= u32::MAX
    }

    /// Every counter can still be raised by one.
    pub open spec fn has_room(self) -> bool {
        &&& self.boards_committed < u32::MAX
        &&& self.p1_hits < u32::MAX
        &&& self.p2_hits < u32::MAX
        &&& self.p1_turns_taken < u32::MAX
        &&& self.p2_turns_taken < u32::MAX
    }

    /// How many of the two commitments are not the zero commitment.
    pub open spec fn boards_present(self) -> nat {
        let first: nat = if self.board_hash1 != zero_hash() {
            1
        } else {
            0
        };
        let second: nat = if self.board_hash2 != zero_hash() {
            1
        } else {
            0
        };
        first + second
    }

    /// What holds of the record of every match, however it was played: the
    /// count of boards is the number of commitments present, and the second
    /// commitment belongs to a seated opponent; the match is in progress
    /// exactly while both boards are committed and no victory is claimed; at
    /// most one report is owed, and only while the match is in progress; an
    /// owed scan report is for a scan that its side has spent; the turn is 1
    /// or 2; and a side that has spent its scan had taken the actions that
    /// unlock it.
    pub open spec fn valid(self) -> bool {
        &&& self.turn == 1 || self.turn == 2
        &&& self.status == STATUS_CREATED || self.status == STATUS_IN_PROGRESS || self.status
            == STATUS_COMPLETED
        &&& self.boards_committed == self.boards_present()
        &&& self.board_hash2 != zero_hash() ==> !self.seat_open()
        &&& (self.status == STATUS_IN_PROGRESS) == (self.boards_committed == 2 && self.status
            != STATUS_COMPLETED)
        &&& self.status == STATUS_CREATED ==> {
            &&& self.turn == 1
            &&& self.p1_turns_taken == 0
            &&& self.p2_turns_taken == 0
            &&& self.p1_hits == 0
            &&& self.p2_hits == 0
        }
        &&& !(self.awaiting_report && self.awaiting_sonar)
        &&& self.awaiting_report || self.awaiting_sonar ==> self.status == STATUS_IN_PROGRESS
        &&& self.awaiting_sonar ==> if self.turn == 1 {
            self.p1_sonar_used
        } else {
            self.p2_sonar_used
        }
        &&& self.p1_sonar_used ==> self.p1_turns_taken > SONAR_UNLOCK_TURNS
        &&& self.p2_sonar_used ==> self.p2_turns_taken > SONAR_UNLOCK_TURNS
        &&& self.last_shot_x < BOARD_SIDE && self.last_shot_y < BOARD_SIDE
        &&& self.sonar_center_x < BOARD_SIDE && self.sonar_center_y < BOARD_SIDE
        &&& self.last_sonar_count <= SONAR_CELLS
    }
}

impl Game {
    /// Whether every counter of the record can still be raised by one.
    pub fn has_room(&self) -> (room: bool)
        ensures
            room == self@.has_room(),
    {
        self.boards_committed < u32::MAX && self.p1_hits < u32::MAX && self.p2_hits < u32::MAX
            && self.p1_turns_taken < u32::MAX && self.p2_turns_taken < u32::MAX
    }
}

/// Whether `hash` is the all-zero commitment that marks a side as uncommitted.
pub fn is_zero_hash(hash: &[u8; 32]) -> (zero: bool)
    ensures
        zero == (hash@ == zero_hash()),
{
    let mut i: usize = 0;
    while i < HASH_LEN
        invariant
            i <= HASH_LEN,
            forall|j: int| 0 <= j < i ==> hash@[j] == 0u8,
        decreases HASH_LEN - i,
    {
        if hash[i] != 0 {
            assert(hash@[i as int] != zero_hash()[i as int]);
            return false;
        }
        i += 1;
    }
    assert(hash@ =~= zero_hash());
    true
}

impl Game {
    /// The record of a match that `player1` has just created under
    /// `session_id`.
    pub fn new(player1: Address, session_id: u32) -> (game: Game)
        ensures
            game@ == opened(player1@, session_id as nat),
            game@.valid(),
    {
        let zero: [u8; 32] = [0u8; 32];
        assert(zero@ =~= zero_hash());
        let player2 = player1.clone();
        Game {
            player1,
            player2,
            board_hash1: zero,
            board_hash2: zero,
            boards_committed: 0,
            turn: 1,
            p1_hits: 0,
            p2_hits: 0,
            status: STATUS_CREATED,
            session_id,
            awaiting_report: false,
            last_shot_x: 0,
            last_shot_y: 0,
            p1_turns_taken: 0,
            p2_turns_taken: 0,
            p1_sonar_used: false,
            p2_sonar_used: false,
            awaiting_sonar: false,
            sonar_center_x: 0,
            sonar_center_y: 0,
            last_sonar_count: 0,
        }
    }
}

impl Clone for Game {
    fn clone(&self) -> (copy: Self)
        ensures
            copy@ == self@,
    {
        Game {
            player1: self.player1.clone(),
            player2: self.player2.clone(),
            board_hash1: self.board_hash1,
            board_hash2: self.board_hash2,
            boards_committed: self.boards_committed,
            turn: self.turn,
            p1_hits: self.p1_hits,
            p2_hits: self.p2_hits,
            status: self.status,
            session_id: self.session_id,
            awaiting_report: self.awaiting_report,
            last_shot_x: self.last_shot_x,
            last_shot_y: self.last_shot_y,
            p1_turns_taken: self.p1_turns_taken,
            p2_turns_taken: self.p2_turns_taken,
            p1_sonar_used: self.p1_sonar_used,
            p2_sonar_used: self.p2_sonar_used,
            awaiting_sonar: self.awaiting_sonar,
            sonar_center_x: self.sonar_center_x,
            sonar_center_y: self.sonar_center_y,
            last_sonar_count: self.last_sonar_count,
        }
    }
}

} // verus!
