//! What holds of every match and every ledger, proved from the rules.

use vstd::prelude::*;
use crate::contract::{after, call_fault, created, next_id, run, Call};
use crate::ledger::LedgerView;
use crate::record::{
    opened, GameView, FLEET_CELLS, SONAR_UNLOCK_TURNS, STATUS_COMPLETED, STATUS_CREATED,
    STATUS_IN_PROGRESS,
};
use crate::rules::{fault, play, step, Action};

verus! {

/// Asking `first` and then `rest` is asking them all in turn.
pub proof fn play_in_two(g: GameView, first: Seq<Action>, rest: Seq<Action>)
    ensures
        play(g, first + rest) == play(play(g, first), rest),
    decreases rest.len(),
{
    if rest.len() == 0 {
        assert(first + rest =~= first);
    } else {
        assert((first + rest).drop_last() =~= first + rest.drop_last());
        assert((first + rest).last() == rest.last());
        play_in_two(g, first, rest.drop_last());
    }
}

/// A freshly created match is valid.
pub proof fn opened_is_valid(player1: Seq<char>, session_id: nat)
    ensures
        opened(player1, session_id).valid(),
{
}

/// Whatever is asked of a valid record, accepted or not, leaves a valid
/// record.
pub proof fn step_keeps_valid(g: GameView, action: Action)
    requires
        g.valid(),
    ensures
        step(g, action).valid(),
{
}

/// Whatever is asked of a valid record, in whatever order, leaves a valid
/// record.
pub proof fn play_keeps_valid(g: GameView, actions: Seq<Action>)
    requires
        g.valid(),
    ensures
        play(g, actions).valid(),
    decreases actions.len(),
{
    if actions.len() > 0 {
        play_keeps_valid(g, actions.drop_last());
        step_keeps_valid(play(g, actions.drop_last()), actions.last());
    }
}

/// From its creation on, a match is valid after every action asked of it:
/// after each of the first `n` of `actions`, for every `n`.
pub proof fn invariants_hold_from_creation(
    player1: Seq<char>,
    session_id: nat,
    actions: Seq<Action>,
    n: int,
)
    requires
        0 <= n <= actions.len(),
    ensures
        play(opened(player1, session_id), actions.take(n)).valid(),
{
    opened_is_valid(player1, session_id);
    play_keeps_valid(opened(player1, session_id), actions.take(n));
}

/// Nothing is accepted of a completed match: it is terminal.
pub proof fn completed_is_terminal(g: GameView, action: Action)
    requires
        g.status == STATUS_COMPLETED,
    ensures
        fault(g, action) is Some,
        step(g, action) == g,
{
}

/// Only an accepted victory claim completes a match.
pub proof fn only_a_claim_completes(g: GameView, action: Action)
    requires
        g.status != STATUS_COMPLETED,
        step(g, action).status == STATUS_COMPLETED,
    ensures
        action is Claim,
        fault(g, action) is None,
{
}

/// An accepted victory claim finds the claimer with at least a fleet's worth
/// of hits, and no report owed.
pub proof fn claim_needs_a_sunk_fleet(g: GameView, player: Seq<char>)
    requires
        fault(g, Action::Claim { player }) is None,
    ensures
        player == g.player1 ==> g.p1_hits >= FLEET_CELLS,
        player != g.player1 ==> player == g.player2 && g.p2_hits >= FLEET_CELLS,
        !g.awaiting_report,
        !g.awaiting_sonar,
{
}

/// Whether `action` is an accepted report of a hit for a shooter that
/// already has every cell of the opposing fleet.
pub open spec fn overkill(g: GameView, action: Action) -> bool {
    &&& fault(g, action) is None
    &&& action matches Action::Report { hit, .. }
    &&& hit
    &&& if g.turn == 1 {
        g.p1_hits >= FLEET_CELLS
    } else {
        g.p2_hits >= FLEET_CELLS
    }
}

/// Whether none of `actions`, asked in turn starting from `g`, is an
/// overkill in the state in which it is asked.
pub open spec fn sober_play(g: GameView, actions: Seq<Action>) -> bool
    decreases actions.len(),
{
    if actions.len() == 0 {
        true
    } else {
        sober_play(g, actions.drop_last()) && !overkill(
            play(g, actions.drop_last()),
            actions.last(),
        )
    }
}

/// Whether no side has more hits than a fleet has cells.
pub open spec fn hits_within_fleet(g: GameView) -> bool {
    g.p1_hits <= FLEET_CELLS && g.p2_hits <= FLEET_CELLS
}

/// No action lowers the hit counts, and none but an overkill takes a side
/// past a fleet's worth of hits.
pub proof fn step_keeps_hits_within_fleet(g: GameView, action: Action)
    requires
        hits_within_fleet(g),
        !overkill(g, action),
    ensures
        hits_within_fleet(step(g, action)),
        step(g, action).p1_hits >= g.p1_hits,
        step(g, action).p2_hits >= g.p2_hits,
{
}

/// In a play without overkill, from a state in which no side has more hits
/// than a fleet has cells, no side ever has: the two counts sum to at most
/// two fleets, and a side whose victory claim is accepted has exactly a
/// fleet's worth of hits.
pub proof fn hits_stay_within_fleet(g: GameView, actions: Seq<Action>, claimer: Seq<char>)
    requires
        hits_within_fleet(g),
        sober_play(g, actions),
    ensures
        hits_within_fleet(play(g, actions)),
        play(g, actions).p1_hits + play(g, actions).p2_hits <= FLEET_CELLS + FLEET_CELLS,
        fault(play(g, actions), Action::Claim { player: claimer }) is None ==> {
            let end = play(g, actions);
            if claimer == end.player1 {
                end.p1_hits == FLEET_CELLS
            } else {
                end.p2_hits == FLEET_CELLS
            }
        },
    decreases actions.len(),
{
    if actions.len() > 0 {
        hits_stay_within_fleet(g, actions.drop_last(), claimer);
        step_keeps_hits_within_fleet(play(g, actions.drop_last()), actions.last());
    }
}

/// The phase of a match never moves backward: an action leaves it where it
/// is, or moves it one phase on.
pub proof fn status_only_advances(g: GameView, action: Action)
    ensures
        step(g, action).status == g.status || (g.status == STATUS_CREATED && step(
            g,
            action,
        ).status == STATUS_IN_PROGRESS) || (g.status == STATUS_IN_PROGRESS && step(
            g,
            action,
        ).status == STATUS_COMPLETED),
{
}

/// No play takes the phase of a match back.
pub proof fn status_never_falls(g: GameView, actions: Seq<Action>)
    ensures
        g.status <= play(g, actions).status,
    decreases actions.len(),
{
    if actions.len() > 0 {
        status_never_falls(g, actions.drop_last());
        status_only_advances(play(g, actions.drop_last()), actions.last());
    }
}

/// Along any play, the phase at an earlier point is no later than the phase
/// at a later point.
pub proof fn status_is_monotone(g: GameView, actions: Seq<Action>, more: Seq<Action>)
    ensures
        play(g, actions).status <= play(g, actions + more).status,
{
    play_in_two(g, actions, more);
    status_never_falls(play(g, actions), more);
}

/// No action gives a side its scan back, and an accepted scan spends the
/// scan of the side that asks and of no other.
pub proof fn sonar_stays_spent(g: GameView, action: Action)
    ensures
        g.p1_sonar_used ==> step(g, action).p1_sonar_used,
        g.p2_sonar_used ==> step(g, action).p2_sonar_used,
        !(action is Sonar) ==> step(g, action).p1_sonar_used == g.p1_sonar_used && step(
            g,
            action,
        ).p2_sonar_used == g.p2_sonar_used,
        action is Sonar && fault(g, action) is None ==> if g.turn == 1 {
            !g.p1_sonar_used && step(g, action).p1_sonar_used && step(g, action).p2_sonar_used
                == g.p2_sonar_used
        } else {
            !g.p2_sonar_used && step(g, action).p2_sonar_used && step(g, action).p1_sonar_used
                == g.p1_sonar_used
        },
{
}

/// No play gives a side its scan back.
pub proof fn sonar_never_returns(g: GameView, actions: Seq<Action>)
    ensures
        g.p1_sonar_used ==> play(g, actions).p1_sonar_used,
        g.p2_sonar_used ==> play(g, actions).p2_sonar_used,
    decreases actions.len(),
{
    if actions.len() > 0 {
        sonar_never_returns(g, actions.drop_last());
        sonar_stays_spent(play(g, actions.drop_last()), actions.last());
    }
}

/// Along any play, a scan that is spent at an earlier point is spent at
/// every later point.
pub proof fn sonar_use_is_monotone(g: GameView, actions: Seq<Action>, more: Seq<Action>)
    ensures
        play(g, actions).p1_sonar_used ==> play(g, actions + more).p1_sonar_used,
        play(g, actions).p2_sonar_used ==> play(g, actions + more).p2_sonar_used,
{
    play_in_two(g, actions, more);
    sonar_never_returns(play(g, actions), more);
}

/// A scan is accepted only of a side that has taken the actions that unlock
/// it and has not spent its scan.
pub proof fn sonar_needs_unlocking(g: GameView, player: Seq<char>, x: nat, y: nat)
    requires
        fault(g, Action::Sonar { player, x, y }) is None,
    ensures
        player == g.shooter(),
        g.turn == 1 ==> g.p1_turns_taken >= SONAR_UNLOCK_TURNS && !g.p1_sonar_used,
        g.turn != 1 ==> g.p2_turns_taken >= SONAR_UNLOCK_TURNS && !g.p2_sonar_used,
{
}

/// After an accepted shot, the one action that is accepted next is the
/// report of its result, and it comes from the other player.
pub proof fn shot_is_followed_by_its_report(
    g: GameView,
    player: Seq<char>,
    x: nat,
    y: nat,
    next: Action,
)
    requires
        g.valid(),
        fault(g, Action::Shot { player, x, y }) is None,
        fault(step(g, Action::Shot { player, x, y }), next) is None,
    ensures
        step(g, Action::Shot { player, x, y }).shooter() == player,
        next is Report,
        next.actor() == g.defender(),
        next.actor() != player,
{
}

/// After an accepted scan, the one action that is accepted next is the
/// report of its count, and it comes from the other player.
pub proof fn sonar_is_followed_by_its_report(
    g: GameView,
    player: Seq<char>,
    x: nat,
    y: nat,
    next: Action,
)
    requires
        g.valid(),
        fault(g, Action::Sonar { player, x, y }) is None,
        fault(step(g, Action::Sonar { player, x, y }), next) is None,
    ensures
        step(g, Action::Sonar { player, x, y }).shooter() == player,
        next is SonarReport,
        next.actor() == g.defender(),
        next.actor() != player,
{
}

/// While a report is owed in a valid match, nothing is accepted but that
/// report, from the defender.
pub proof fn owed_report_comes_first(g: GameView, action: Action)
    requires
        g.valid(),
        g.awaiting_report || g.awaiting_sonar,
        fault(g, action) is None,
    ensures
        g.awaiting_report ==> action is Report,
        g.awaiting_sonar ==> action is SonarReport,
        action.actor() == g.defender(),
        action.actor() != g.shooter(),
{
}

/// The turn changes hands only when a report is accepted.
pub proof fn only_a_report_passes_the_turn(g: GameView, action: Action)
    requires
        step(g, action).turn != g.turn,
    ensures
        action is Report || action is SonarReport,
        fault(g, action) is None,
{
}

/// A full shot round passes the turn exactly once: the shot leaves it where
/// it is, and the report hands it to the other side.
pub proof fn shot_round_passes_the_turn(
    g: GameView,
    shooter: Seq<char>,
    x: nat,
    y: nat,
    reporter: Seq<char>,
    hit: bool,
)
    requires
        g.valid(),
        fault(g, Action::Shot { player: shooter, x, y }) is None,
        fault(
            step(g, Action::Shot { player: shooter, x, y }),
            Action::Report { player: reporter, hit },
        ) is None,
    ensures
        step(g, Action::Shot { player: shooter, x, y }).turn == g.turn,
        step(
            step(g, Action::Shot { player: shooter, x, y }),
            Action::Report { player: reporter, hit },
        ).turn == g.next_turn(),
        g.next_turn() != g.turn,
        g.next_turn() == 1 || g.next_turn() == 2,
{
}

/// A full scan round passes the turn exactly once: the scan leaves it where
/// it is, and the report hands it to the other side.
pub proof fn sonar_round_passes_the_turn(
    g: GameView,
    shooter: Seq<char>,
    x: nat,
    y: nat,
    reporter: Seq<char>,
    count: nat,
)
    requires
        g.valid(),
        fault(g, Action::Sonar { player: shooter, x, y }) is None,
        fault(
            step(g, Action::Sonar { player: shooter, x, y }),
            Action::SonarReport { player: reporter, count },
        ) is None,
    ensures
        step(g, Action::Sonar { player: shooter, x, y }).turn == g.turn,
        step(
            step(g, Action::Sonar { player: shooter, x, y }),
            Action::SonarReport { player: reporter, count },
        ).turn == g.next_turn(),
        g.next_turn() != g.turn,
        g.next_turn() == 1 || g.next_turn() == 2,
{
}

/// Whether every record stored on `l` is valid.
pub open spec fn records_valid(l: LedgerView) -> bool {
    forall|id: nat| #[trigger] l.games.contains_key(id) ==> l.games[id].valid()
}

/// Whatever call is made, accepted or not, leaves every stored record valid:
/// it stores a freshly created record, or the record that an action leads
/// to, or nothing.
pub proof fn call_keeps_records_valid(l: LedgerView, call: Call)
    requires
        records_valid(l),
    ensures
        records_valid(after(l, call)),
{
    if call_fault(l, call) is None {
        match call {
            Call::NewGame { player1 } => {
                opened_is_valid(player1, next_id(l));
            },
            Call::Play { game_id, action } => {
                step_keeps_valid(l.games[game_id], action);
            },
            _ => {},
        }
    }
}

/// Whatever calls are made on a ledger whose records are valid, in whatever
/// order, every stored record is valid afterwards.
pub proof fn run_keeps_records_valid(l: LedgerView, calls: Seq<Call>)
    requires
        records_valid(l),
    ensures
        records_valid(run(l, calls)),
    decreases calls.len(),
{
    if calls.len() > 0 {
        run_keeps_records_valid(l, calls.drop_last());
        call_keeps_records_valid(run(l, calls.drop_last()), calls.last());
    }
}

/// On a ledger that starts empty, every stored record is valid after every
/// call: after each of the first `n` of `calls`, for every `n`.
pub proof fn ledger_keeps_records_valid(contract: Seq<char>, calls: Seq<Call>, n: int)
    requires
        0 <= n <= calls.len(),
    ensures
        records_valid(run(LedgerView::empty(contract), calls.take(n))),
{
    run_keeps_records_valid(LedgerView::empty(contract), calls.take(n));
}

/// Whether `call` is accepted on `l` and sets a match count that is not zero
/// back to zero: a hub configured after matches were created.
pub open spec fn resets_count(l: LedgerView, call: Call) -> bool {
    call is Initialize && call_fault(l, call) is None && l.count() > 0
}

/// Whether none of `calls`, made in turn starting from `l`, resets the match
/// count.
pub open spec fn count_kept(l: LedgerView, calls: Seq<Call>) -> bool
    decreases calls.len(),
{
    if calls.len() == 0 {
        true
    } else {
        count_kept(l, calls.drop_last()) && !resets_count(
            run(l, calls.drop_last()),
            calls.last(),
        )
    }
}

/// A call changes the match count only by creating a match, which raises
/// it by one, or by resetting it.
pub proof fn call_counts_created_match(l: LedgerView, call: Call)
    requires
        !resets_count(l, call),
    ensures
        after(l, call).count() == l.count() + if call is NewGame && call_fault(l, call) is None {
            1nat
        } else {
            0nat
        },
{
}

/// As long as the count is never reset, it grows by exactly the number of
/// matches created.
pub proof fn count_grows_with_created(l: LedgerView, calls: Seq<Call>)
    requires
        count_kept(l, calls),
    ensures
        run(l, calls).count() == l.count() + created(l, calls),
    decreases calls.len(),
{
    if calls.len() > 0 {
        count_grows_with_created(l, calls.drop_last());
        call_counts_created_match(run(l, calls.drop_last()), calls.last());
    }
}

/// On a ledger that starts empty and whose count is never reset, the match
/// count is the number of matches created.
pub proof fn game_count_is_matches_created(contract: Seq<char>, calls: Seq<Call>)
    requires
        count_kept(LedgerView::empty(contract), calls),
    ensures
        run(LedgerView::empty(contract), calls).count() == created(
            LedgerView::empty(contract),
            calls,
        ),
{
    count_grows_with_created(LedgerView::empty(contract), calls);
}

} // verus!
