//! The engine's entry points.
//!
//! Every mutating entry point runs the same way: the named principal must
//! have authorized the operation, the record is loaded, the rules decide,
//! and only an accepted operation writes.  What each entry point does to the
//! ledger is stated once, over the model, by [`call_fault`] and
//! [`call_effect`].

use vstd::prelude::*;
use crate::address::Address;
use crate::error::GameError;
use crate::ledger::{DataKey, HubCall, HubCallView, Ledger, LedgerView};
use crate::record::{opened, Game, GameView};
use crate::rules::{effect, fault, sonar_open, Action};

verus! {

/// What can happen to a ledger: the requests that the engine serves, and the
/// authorizations that come and go around them.
pub enum Call {
    /// A principal authorizes the operation in progress.
    Authorize { who: Seq<char> },
    /// The authorizations are forgotten.
    ClearAuthorizations,
    /// Configure the hub.
    Initialize { hub: Seq<char> },
    /// Create a match.
    NewGame { player1: Seq<char> },
    /// Act on the match stored under `game_id`.
    Play { game_id: nat, action: Action },
}

/// Why `call` is refused on ledger `l`: the first check that fails, or `None`
/// when the call is accepted.
pub open spec fn call_fault(l: LedgerView, call: Call) -> Option<GameError> {
    match call {
        Call::Authorize { .. } => None,
        Call::ClearAuthorizations => None,
        Call::Initialize { .. } => if l.hub is Some {
            Some(GameError::AlreadyInitialized)
        } else {
            None
        },
        Call::NewGame { player1 } => if !l.authorized(player1) {
            Some(GameError::Unauthorized)
        } else {
            None
        },
        Call::Play { game_id, action } => if !l.authorized(action.actor()) {
            Some(GameError::Unauthorized)
        } else if !l.games.contains_key(game_id) {
            Some(GameError::GameNotFound)
        } else {
            fault(l.games[game_id], action)
        },
    }
}

/// The calls that go to the hub when `action` is accepted on record `g` of
/// ledger `l`: `start_game` when the second board is committed, `end_game`
/// when victory is claimed, and nothing while no hub is configured.
pub open spec fn notices(l: LedgerView, g: GameView, action: Action) -> Seq<HubCallView> {
    if l.hub is None {
        Seq::empty()
    } else {
        match action {
            Action::Commit { .. } => if g.boards_committed == 1 {
                seq![
                    HubCallView::StartGame {
                        game_contract: l.contract,
                        session_id: g.session_id,
                        player1: g.player1,
                        player2: g.player2,
                        reserved1: 0,
                        reserved2: 0,
                    },
                ]
            } else {
                Seq::empty()
            },
            Action::Claim { player } => seq![
                HubCallView::EndGame { session_id: g.session_id, player1_won: player == g.player1 },
            ],
            _ => Seq::empty(),
        }
    }
}

/// The id that the next match will get.
pub open spec fn next_id(l: LedgerView) -> nat {
    l.count() + 1
}

/// What an accepted `call` makes of ledger `l`.
pub open spec fn call_effect(l: LedgerView, call: Call) -> LedgerView {
    match call {
        Call::Authorize { who } => LedgerView { signers: l.signers.push(who), ..l },
        Call::ClearAuthorizations => LedgerView { signers: Seq::empty(), ..l },
        Call::Initialize { hub } => LedgerView { hub: Some(hub), game_count: Some(0), ..l },
        Call::NewGame { player1 } => LedgerView {
            game_count: Some(next_id(l)),
            games: l.games.insert(next_id(l), opened(player1, next_id(l))),
            ..l
        },
        Call::Play { game_id, action } => LedgerView {
            games: l.games.insert(game_id, effect(l.games[game_id], action)),
            outbox: l.outbox + notices(l, l.games[game_id], action),
            ..l
        },
    }
}

/// The ledger after `call` was made on `l`: its effect if it is accepted, `l`
/// itself if it is refused.
pub open spec fn after(l: LedgerView, call: Call) -> LedgerView {
    if call_fault(l, call) is None {
        call_effect(l, call)
    } else {
        l
    }
}

/// The ledger after each of `calls` was made in turn, starting from `l`.
pub open spec fn run(l: LedgerView, calls: Seq<Call>) -> LedgerView
    decreases calls.len(),
{
    if calls.len() == 0 {
        l
    } else {
        after(run(l, calls.drop_last()), calls.last())
    }
}

/// How many of `calls`, made in turn starting from `l`, created a match.
pub open spec fn created(l: LedgerView, calls: Seq<Call>) -> nat
    decreases calls.len(),
{
    if calls.len() == 0 {
        0
    } else {
        let before = run(l, calls.drop_last());
        let one: nat = if calls.last() is NewGame && call_fault(before, calls.last()) is None {
            1
        } else {
            0
        };
        created(l, calls.drop_last()) + one
    }
}

/// The numbers that `call` would store can be held in machine integers.
/// This fails only for an accepted call that would push the match count or a
/// counter of the record past `u32::MAX`.
pub open spec fn call_in_range(l: LedgerView, call: Call) -> bool {
    call_fault(l, call) is None ==> match call {
        Call::NewGame { .. } => next_id(l) <= u32::MAX,
        Call::Play { game_id, action } => effect(l.games[game_id], action).fits(),
        _ => true,
    }
}

/// What an entry point owes its caller: a refused call reports the first
/// check that failed and leaves the ledger alone; an accepted one puts the
/// ledger in the state the rules give.
pub open spec fn served<T>(
    before: LedgerView,
    call: Call,
    result: Result<T, GameError>,
    after: LedgerView,
) -> bool {
    match call_fault(before, call) {
        Some(e) => result == Err::<T, GameError>(e) && after == before,
        None => result is Ok && after == call_effect(before, call),
    }
}

/// A queue to which no call is added is the queue as it was.
proof fn nothing_queued(queue: Seq<HubCallView>)
    ensures
        queue + Seq::<HubCallView>::empty() == queue,
{
    assert(queue + Seq::<HubCallView>::empty() =~= queue);
}

/// A queue to which one call is added is the queue with that call at its
/// end.
proof fn one_queued(queue: Seq<HubCallView>, call: HubCallView)
    ensures
        queue + seq![call] == queue.push(call),
{
    assert(queue + seq![call] =~= queue.push(call));
}

/// The engine.  Its state lives on the [`Ledger`] that every entry point
/// takes.
pub struct BattleshipContract;

impl BattleshipContract {
    /// Configures the hub and starts the match count at zero.  Refused once a
    /// hub is configured.
    pub fn initialize(env: &mut Ledger, hub: Address) -> (result: Result<(), GameError>)
        ensures
            served(old(env)@, Call::Initialize { hub: hub@ }, result, final(env)@),
    {
        if env.has(&DataKey::Hub) {
            return Err(GameError::AlreadyInitialized);
        }
        env.set_hub(hub);
        env.set_game_count(0);
        Ok(())
    }

    /// Creates a match for `player1`, with the second seat open, and returns
    /// its id: one more than the count of matches so far.
    pub fn new_game(env: &mut Ledger, player1: Address) -> (result: Result<u32, GameError>)
        requires
            call_in_range(old(env)@, Call::NewGame { player1: player1@ }),
        ensures
            served(old(env)@, Call::NewGame { player1: player1@ }, result, final(env)@),
            result matches Ok(game_id) ==> game_id == next_id(old(env)@),
    {
        if !env.has_authorized(&player1) {
            return Err(GameError::Unauthorized);
        }
        let count: u32 = BattleshipContract::game_count(env);
        let game_id: u32 = count + 1;
        let game = Game::new(player1, game_id);
        env.set_game(game_id, game);
        env.set_game_count(game_id);
        Ok(game_id)
    }

    /// Seats `player2` as the opponent in the match `game_id`.
    pub fn join_game(env: &mut Ledger, game_id: u32, player2: Address) -> (result: Result<
        (),
        GameError,
    >)
        ensures
            served(
                old(env)@,
                Call::Play { game_id: game_id as nat, action: Action::Join { player: player2@ } },
                result,
                final(env)@,
            ),
    {
        if !env.has_authorized(&player2) {
            return Err(GameError::Unauthorized);
        }
        let mut game = match env.game(game_id) {
            Some(game) => game,
            None => {
                return Err(GameError::GameNotFound);
            },
        };
        match game.join_game(player2) {
            Ok(()) => {},
            Err(e) => {
                return Err(e);
            },
        }
        proof {
            nothing_queued(old(env)@.outbox);
        }
        env.set_game(game_id, game);
        Ok(())
    }

    /// Records `board_hash` as the commitment of `player`'s side in the match
    /// `game_id`.  The second commitment starts the play, and the hub, if one
    /// is configured, is told.
    pub fn commit_board(
        env: &mut Ledger,
        game_id: u32,
        player: Address,
        board_hash: [u8; 32],
    ) -> (result: Result<(), GameError>)
        requires
            call_in_range(
                old(env)@,
                Call::Play { game_id: game_id as nat, action: Action::Commit { player: player@, hash: board_hash@ } },
            ),
        ensures
            served(
                old(env)@,
                Call::Play { game_id: game_id as nat, action: Action::Commit { player: player@, hash: board_hash@ } },
                result,
                final(env)@,
            ),
    {
        if !env.has_authorized(&player) {
            return Err(GameError::Unauthorized);
        }
        let mut game = match env.game(game_id) {
            Some(game) => game,
            None => {
                return Err(GameError::GameNotFound);
            },
        };
        let started = match game.commit_board(&player, board_hash) {
            Ok(started) => started,
            Err(e) => {
                return Err(e);
            },
        };
        if started && env.has(&DataKey::Hub) {
            let call = HubCall::StartGame {
                game_contract: env.contract_address(),
                session_id: game.session_id,
                player1: game.player1.clone(),
                player2: game.player2.clone(),
                reserved1: 0,
                reserved2: 0,
            };
            proof {
                one_queued(old(env)@.outbox, call@);
            }
            env.emit(call);
        } else {
            proof {
                nothing_queued(old(env)@.outbox);
            }
        }
        env.set_game(game_id, game);
        Ok(())
    }

    /// Declares a shot by `player` at the cell `(x, y)` in the match
    /// `game_id`.
    pub fn take_shot(env: &mut Ledger, game_id: u32, player: Address, x: u32, y: u32) -> (result:
        Result<(), GameError>)
        requires
            call_in_range(
                old(env)@,
                Call::Play {
                    game_id: game_id as nat,
                    action: Action::Shot { player: player@, x: x as nat, y: y as nat },
                },
            ),
        ensures
            served(
                old(env)@,
                Call::Play {
                    game_id: game_id as nat,
                    action: Action::Shot { player: player@, x: x as nat, y: y as nat },
                },
                result,
                final(env)@,
            ),
    {
        if !env.has_authorized(&player) {
            return Err(GameError::Unauthorized);
        }
        let mut game = match env.game(game_id) {
            Some(game) => game,
            None => {
                return Err(GameError::GameNotFound);
            },
        };
        match game.take_shot(&player, x, y) {
            Ok(()) => {},
            Err(e) => {
                return Err(e);
            },
        }
        proof {
            nothing_queued(old(env)@.outbox);
        }
        env.set_game(game_id, game);
        Ok(())
    }

    /// Records the word of `player`, the defender, on the outstanding shot in
    /// the match `game_id`.
    pub fn report_result(env: &mut Ledger, game_id: u32, player: Address, hit: bool) -> (result:
        Result<(), GameError>)
        requires
            call_in_range(
                old(env)@,
                Call::Play { game_id: game_id as nat, action: Action::Report { player: player@, hit } },
            ),
        ensures
            served(
                old(env)@,
                Call::Play { game_id: game_id as nat, action: Action::Report { player: player@, hit } },
                result,
                final(env)@,
            ),
    {
        if !env.has_authorized(&player) {
            return Err(GameError::Unauthorized);
        }
        let mut game = match env.game(game_id) {
            Some(game) => game,
            None => {
                return Err(GameError::GameNotFound);
            },
        };
        match game.report_result(&player, hit) {
            Ok(()) => {},
            Err(e) => {
                return Err(e);
            },
        }
        proof {
            nothing_queued(old(env)@.outbox);
        }
        env.set_game(game_id, game);
        Ok(())
    }

    /// Ends the match `game_id` in favour of `player`, and tells the hub, if
    /// one is configured, who won.
    pub fn claim_victory(env: &mut Ledger, game_id: u32, player: Address) -> (result: Result<
        (),
        GameError,
    >)
        ensures
            served(
                old(env)@,
                Call::Play { game_id: game_id as nat, action: Action::Claim { player: player@ } },
                result,
                final(env)@,
            ),
    {
        if !env.has_authorized(&player) {
            return Err(GameError::Unauthorized);
        }
        let mut game = match env.game(game_id) {
            Some(game) => game,
            None => {
                return Err(GameError::GameNotFound);
            },
        };
        let player1_won = match game.claim_victory(&player) {
            Ok(player1_won) => player1_won,
            Err(e) => {
                return Err(e);
            },
        };
        if env.has(&DataKey::Hub) {
            let call = HubCall::EndGame { session_id: game.session_id, player1_won };
            proof {
                one_queued(old(env)@.outbox, call@);
            }
            env.emit(call);
        } else {
            proof {
                nothing_queued(old(env)@.outbox);
            }
        }
        env.set_game(game_id, game);
        Ok(())
    }

    /// Whether a scan is open to `player` right now in the match `game_id`.
    /// Reading needs no authorization.
    pub fn sonar_available(env: &Ledger, game_id: u32, player: &Address) -> (result: Result<
        bool,
        GameError,
    >)
        ensures
            match result {
                Ok(open) => env@.games.contains_key(game_id as nat) && open == sonar_open(
                    env@.games[game_id as nat],
                    player@,
                ),
                Err(e) => !env@.games.contains_key(game_id as nat) && e == GameError::GameNotFound,
            },
    {
        match env.game(game_id) {
            Some(game) => Ok(game.sonar_available(player)),
            None => Err(GameError::GameNotFound),
        }
    }

    /// Declares a scan by `player`, centred on the cell
    /// `(center_x, center_y)`, in the match `game_id`.
    pub fn use_sonar(
        env: &mut Ledger,
        game_id: u32,
        player: Address,
        center_x: u32,
        center_y: u32,
    ) -> (result: Result<(), GameError>)
        requires
            call_in_range(
                old(env)@,
                Call::Play {
                    game_id: game_id as nat,
                    action: Action::Sonar {
                        player: player@,
                        x: center_x as nat,
                        y: center_y as nat,
                    },
                },
            ),
        ensures
            served(
                old(env)@,
                Call::Play {
                    game_id: game_id as nat,
                    action: Action::Sonar {
                        player: player@,
                        x: center_x as nat,
                        y: center_y as nat,
                    },
                },
                result,
                final(env)@,
            ),
    {
        if !env.has_authorized(&player) {
            return Err(GameError::Unauthorized);
        }
        let mut game = match env.game(game_id) {
            Some(game) => game,
            None => {
                return Err(GameError::GameNotFound);
            },
        };
        match game.use_sonar(&player, center_x, center_y) {
            Ok(()) => {},
            Err(e) => {
                return Err(e);
            },
        }
        proof {
            nothing_queued(old(env)@.outbox);
        }
        env.set_game(game_id, game);
        Ok(())
    }

    /// Records the count that `player`, the defender, reports for the
    /// outstanding scan in the match `game_id`.
    pub fn report_sonar(env: &mut Ledger, game_id: u32, player: Address, count: u32) -> (result:
        Result<(), GameError>)
        ensures
            served(
                old(env)@,
                Call::Play {
                    game_id: game_id as nat,
                    action: Action::SonarReport { player: player@, count: count as nat },
                },
                result,
                final(env)@,
            ),
    {
        if !env.has_authorized(&player) {
            return Err(GameError::Unauthorized);
        }
        let mut game = match env.game(game_id) {
            Some(game) => game,
            None => {
                return Err(GameError::GameNotFound);
            },
        };
        match game.report_sonar(&player, count) {
            Ok(()) => {},
            Err(e) => {
                return Err(e);
            },
        }
        proof {
            nothing_queued(old(env)@.outbox);
        }
        env.set_game(game_id, game);
        Ok(())
    }

    /// A snapshot of the record of the match `game_id`.
    pub fn get_game(env: &Ledger, game_id: u32) -> (result: Result<Game, GameError>)
        ensures
            match result {
                Ok(game) => env@.games.contains_key(game_id as nat) && game@
                    == env@.games[game_id as nat],
                Err(e) => !env@.games.contains_key(game_id as nat) && e == GameError::GameNotFound,
            },
    {
        match env.game(game_id) {
            Some(game) => Ok(game),
            None => Err(GameError::GameNotFound),
        }
    }

    /// The number of matches created so far.
    pub fn game_count(env: &Ledger) -> (count: u32)
        ensures
            count == env@.count(),
    {
        match env.stored_game_count() {
            Some(count) => count,
            None => 0,
        }
    }
}

} // verus!
