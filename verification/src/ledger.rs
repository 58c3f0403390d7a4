//! The ledger the engine runs on: the keyed store of match records and
//! singletons, the principals that have authorized the operation in
//! progress, and the calls queued for the hub.

use std::collections::HashMap;
use vstd::prelude::*;
use vstd::std_specs::hash::group_hash_axioms;
use crate::address::Address;
use crate::record::{Game, GameView};

verus! {

/// The keys of the store: one slot per match, and two singletons.
#[derive(Clone, Copy, Debug, PartialEq, Eq, Structural)]
pub enum DataKey {
    /// The record of the match with this id.
    Game(u32),
    /// The number of matches created so far.
    GameCount,
    /// The address of the hub that is told when a match starts and ends.
    Hub,
}

/// A call the engine makes to the hub.
#[derive(Debug, PartialEq, Eq)]
pub enum HubCall {
    /// `start_game`: both boards of a match are committed.  The two reserved
    /// amounts are always zero.
    StartGame {
        game_contract: Address,
        session_id: u32,
        player1: Address,
        player2: Address,
        reserved1: i128,
        reserved2: i128,
    },
    /// `end_game`: victory in a match was claimed.
    EndGame { session_id: u32, player1_won: bool },
}

/// The mathematical model of a call to the hub.
pub enum HubCallView {
    StartGame {
        game_contract: Seq<char>,
        session_id: nat,
        player1: Seq<char>,
        player2: Seq<char>,
        reserved1: int,
        reserved2: int,
    },
    EndGame { session_id: nat, player1_won: bool },
}

impl View for HubCall {
    type V = HubCallView;

    open spec fn view(&self) -> HubCallView {
        match *self {
            HubCall::StartGame {
                game_contract,
                session_id,
                player1,
                player2,
                reserved1,
                reserved2,
            } => HubCallView::StartGame {
                game_contract: game_contract@,
                session_id: session_id as nat,
                player1: player1@,
                player2: player2@,
                reserved1: reserved1 as int,
                reserved2: reserved2 as int,
            },
            HubCall::EndGame { session_id, player1_won } => HubCallView::EndGame {
                session_id: session_id as nat,
                player1_won,
            },
        }
    }
}

impl HubCall {
    /// The name of the hub function that this call invokes.
    pub fn function_name(&self) -> (name: &'static str)
        ensures
            name@ == (match self@ {
                HubCallView::StartGame { .. } => "start_game"@,
                HubCallView::EndGame { .. } => "end_game"@,
            }),
    {
        match self {
            HubCall::StartGame { .. } => "start_game",
            HubCall::EndGame { .. } => "end_game",
        }
    }
}

/// The mathematical model of a ledger.
pub struct LedgerView {
    /// The engine's own address, as the hub knows it.
    pub contract: Seq<char>,
    /// The hub, once configured.
    pub hub: Option<Seq<char>>,
    /// The stored count of matches, once written.
    pub game_count: Option<nat>,
    /// The stored match records by id.
    pub games: Map<nat, GameView>,
    /// The principals that have authorized the operation in progress.
    pub signers: Seq<Seq<char>>,
    /// The calls queued for the hub, oldest first.
    pub outbox: Seq<HubCallView>,
}

impl LedgerView {
    /// A ledger on which nothing has happened yet.
    pub open spec fn empty(contract: Seq<char>) -> LedgerView {
        LedgerView {
            contract,
            hub: None,
            game_count: None,
            games: Map::empty(),
            signers: Seq::empty(),
            outbox: Seq::empty(),
        }
    }

    /// Whether the store holds a value under `key`.
    pub open spec fn has(self, key: DataKey) -> bool {
        match key {
            DataKey::Game(id) => self.games.contains_key(id as nat),
            DataKey::GameCount => self.game_count is Some,
            DataKey::Hub => self.hub is Some,
        }
    }

    /// The number of matches created so far: the stored count, or zero while
    /// none is stored.
    pub open spec fn count(self) -> nat {
        match self.game_count {
            Some(n) => n,
            None => 0,
        }
    }

    /// Whether `who` has authorized the operation in progress.
    pub open spec fn authorized(self, who: Seq<char>) -> bool {
        self.signers.contains(who)
    }
}

/// The store, the authorizations and the hub's queue that the engine works
/// on.
pub struct Ledger {
    contract: Address,
    hub: Option<Address>,
    game_count: Option<u32>,
    games: HashMap<u32, Game>,
    signers: Vec<Address>,
    outbox: Vec<HubCall>,
}

/// The models of the records in `games`, each under its id.
pub open spec fn records(games: Map<u32, Game>) -> Map<nat, GameView> {
    Map::new(
        |id: nat| id <= u32::MAX && games.contains_key(id as u32),
        |id: nat| games[id as u32]@,
    )
}

/// The models of the principals in `signers`, in order.
pub open spec fn principals(signers: Seq<Address>) -> Seq<Seq<char>> {
    Seq::new(signers.len(), |i: int| signers[i]@)
}

/// The models of the calls in `calls`, in order.
pub open spec fn call_views(calls: Seq<HubCall>) -> Seq<HubCallView> {
    Seq::new(calls.len(), |i: int| calls[i]@)
}

impl View for Ledger {
    type V = LedgerView;

    closed spec fn view(&self) -> LedgerView {
        LedgerView {
            contract: self.contract@,
            hub: match self.hub {
                Some(hub) => Some(hub@),
                None => None,
            },
            game_count: match self.game_count {
                Some(n) => Some(n as nat),
                None => None,
            },
            games: records(self.games@),
            signers: principals(self.signers@),
            outbox: call_views(self.outbox@),
        }
    }
}

impl Ledger {
    /// A ledger for the engine deployed at `contract`, on which nothing has
    /// happened yet.
    pub fn new(contract: Address) -> (ledger: Ledger)
        ensures
            ledger@ == LedgerView::empty(contract@),
    {
        let ledger = Ledger {
            contract,
            hub: None,
            game_count: None,
            games: HashMap::new(),
            signers: Vec::new(),
            outbox: Vec::new(),
        };
        assert(ledger@.games =~= Map::empty());
        assert(ledger@.signers =~= Seq::empty());
        assert(ledger@.outbox =~= Seq::empty());
        ledger
    }

    /// The engine's own address.
    pub fn contract_address(&self) -> (contract: Address)
        ensures
            contract@ == self@.contract,
    {
        self.contract.clone()
    }

    /// Whether the store holds a value under `key`.
    pub fn has(&self, key: &DataKey) -> (present: bool)
        ensures
            present == self@.has(*key),
    {
        broadcast use group_hash_axioms;

        match key {
            DataKey::Game(id) => self.games.contains_key(id),
            DataKey::GameCount => self.game_count.is_some(),
            DataKey::Hub => self.hub.is_some(),
        }
    }

    /// The configured hub, if any.
    pub fn hub(&self) -> (hub: Option<Address>)
        ensures
            match hub {
                Some(hub) => self@.hub == Some(hub@),
                None => self@.hub is None,
            },
    {
        match &self.hub {
            Some(hub) => Some(hub.clone()),
            None => None,
        }
    }

    /// Stores `hub` as the configured hub.
    pub fn set_hub(&mut self, hub: Address)
        ensures
            final(self)@ == (LedgerView { hub: Some(hub@), ..old(self)@ }),
    {
        self.hub = Some(hub);
    }

    /// The stored count of matches, if one was ever written.
    pub fn stored_game_count(&self) -> (count: Option<u32>)
        ensures
            match count {
                Some(n) => self@.game_count == Some(n as nat),
                None => self@.game_count is None,
            },
    {
        self.game_count
    }

    /// Stores `count` as the count of matches.
    pub fn set_game_count(&mut self, count: u32)
        ensures
            final(self)@ == (LedgerView { game_count: Some(count as nat), ..old(self)@ }),
    {
        self.game_count = Some(count);
    }

    /// A snapshot of the record stored under `game_id`, if there is one.
    pub fn game(&self, game_id: u32) -> (game: Option<Game>)
        ensures
            match game {
                Some(game) => self@.games.contains_key(game_id as nat) && self@.games[game_id as nat]
                    == game@,
                None => !self@.games.contains_key(game_id as nat),
            },
    {
        broadcast use group_hash_axioms;

        match self.games.get(&game_id) {
            Some(game) => Some(game.clone()),
            None => None,
        }
    }

    /// Stores `game` under `game_id`, in place of what was there.
    pub fn set_game(&mut self, game_id: u32, game: Game)
        ensures
            final(self)@ == (LedgerView {
                games: old(self)@.games.insert(game_id as nat, game@),
                ..old(self)@
            }),
    {
        broadcast use group_hash_axioms;

        self.games.insert(game_id, game);
        assert(self@.games =~= old(self)@.games.insert(game_id as nat, game@));
    }

    /// Notes that `who` has authorized the operation in progress.
    pub fn authorize(&mut self, who: Address)
        ensures
            final(self)@ == (LedgerView { signers: old(self)@.signers.push(who@), ..old(self)@ }),
    {
        self.signers.push(who);
        assert(self@.signers =~= old(self)@.signers.push(who@));
    }

    /// Forgets every authorization, as when the next operation begins.
    pub fn clear_authorizations(&mut self)
        ensures
            final(self)@ == (LedgerView { signers: Seq::empty(), ..old(self)@ }),
    {
        self.signers = Vec::new();
        assert(self@.signers =~= Seq::empty());
    }

    /// Whether `who` has authorized the operation in progress.
    pub fn has_authorized(&self, who: &Address) -> (yes: bool)
        ensures
            yes == self@.authorized(who@),
    {
        let mut i: usize = 0;
        while i < self.signers.len()
            invariant
                i <= self.signers.len(),
                forall|j: int| 0 <= j < i ==> self.signers@[j]@ != who@,
            decreases self.signers.len() - i,
        {
            if self.signers[i] == *who {
                assert(self@.signers[i as int] == who@);
                return true;
            }
            i += 1;
        }
        false
    }

    /// Queues `call` for the hub.
    pub(crate) fn emit(&mut self, call: HubCall)
        ensures
            final(self)@ == (LedgerView { outbox: old(self)@.outbox.push(call@), ..old(self)@ }),
    {
        self.outbox.push(call);
        assert(self@.outbox =~= old(self)@.outbox.push(call@));
    }

    /// Hands over the calls queued for the hub, oldest first, and empties the
    /// queue.
    pub fn take_hub_calls(&mut self) -> (calls: Vec<HubCall>)
        ensures
            call_views(calls@) == old(self)@.outbox,
            final(self)@ == (LedgerView { outbox: Seq::empty(), ..old(self)@ }),
    {
        let mut calls: Vec<HubCall> = Vec::new();
        std::mem::swap(&mut self.outbox, &mut calls);
        assert(self@.outbox =~= Seq::empty());
        calls
    }
}

} // verus!
