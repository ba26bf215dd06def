//! The scoring engine: the players of one game and the turns recorded for
//! them.

use vstd::prelude::*;
use std::collections::HashMap;
use crate::model::{
    after_hit, fresh_players, hit_accepted, hit_fits, hit_row, hits_of, opponents_closed, score_of,
    status_of, valid_players, PlayerState, StatusView,
};
use crate::targets::{is_valid_target, CLOSING_HITS, MAX_PLAYERS, TARGETS};

verus! {

/// One player of a game.
pub struct Player {
    score: u32,
    hits: HashMap<u32, u32>,
}

impl View for Player {
    type V = PlayerState;

    closed spec fn view(&self) -> PlayerState {
        PlayerState {
            score: self.score as nat,
            hits: Map::new(|t: u32| self.hits@.contains_key(t), |t: u32| self.hits@[t] as nat),
        }
    }
}

impl Player {
    /// The player has an entry for each of the seven targets and for nothing
    /// else.
    pub open spec fn wf(&self) -> bool {
        self@.valid()
    }

    /// A player with no points and no hits.
    pub fn new() -> (player: Player)
        ensures
            player.wf(),
            player@ == PlayerState::fresh(),
    {
        let mut hits: HashMap<u32, u32> = HashMap::new();
        let mut i: usize = 0;
        while i < TARGETS.len()
            invariant
                i <= TARGETS.len(),
                forall|t: u32| hits@.contains_key(t) <==> exists|k: int| 0 <= k < i && TARGETS[k] == t,
                forall|t: u32| hits@.contains_key(t) ==> hits@[t] == 0,
            decreases TARGETS.len() - i,
        {
            hits.insert(TARGETS[i], 0);
            i += 1;
        }
        let player = Player { score: 0, hits };
        assert(player@.hits =~= PlayerState::fresh().hits);
        player
    }

    /// Counts `hits` more hits on `target`. For what is no target nothing is
    /// counted.
    pub fn record_hit(&mut self, target: u32, hits: u32)
        requires
            old(self).wf(),
            old(self)@.hits_on(target) + hits <= u32::MAX,
        ensures
            final(self).wf(),
            final(self)@ == old(self)@.add_hits(target, hits as nat),
    {
        let current = match self.hits.get(&target) {
            Some(current_hits) => Some(*current_hits),
            None => None,
        };
        if let Some(current_hits) = current {
            self.hits.insert(target, current_hits + hits);
            assert(self@.hits =~= old(self)@.add_hits(target, hits as nat).hits);
        }
    }

    /// The hits recorded on `target`; zero for what is no target.
    pub fn get_hits(&self, target: u32) -> (hits: u32)
        ensures
            hits == self@.hits_on(target),
    {
        match self.hits.get(&target) {
            Some(hits) => *hits,
            None => 0,
        }
    }

    /// Whether the player has closed `target`.
    pub fn is_number_closed(&self, target: u32) -> (closed: bool)
        ensures
            closed == self@.has_closed(target),
    {
        self.get_hits(target) >= CLOSING_HITS
    }
}

impl Clone for Player {
    /// A player with the same score and the same hits.
    fn clone(&self) -> (copy: Player)
        ensures
            copy@ == self@,
    {
        let copy = Player { score: self.score, hits: self.hits.clone() };
        assert(copy@.hits =~= self@.hits);
        copy
    }
}

/// One game of cricket: its players in their order, each known by the place
/// in that order.
pub struct DartsCricket {
    players: Vec<Player>,
}

impl View for DartsCricket {
    type V = Seq<PlayerState>;

    closed spec fn view(&self) -> Seq<PlayerState> {
        Seq::new(self.players@.len(), |i: int| self.players@[i]@)
    }
}

impl DartsCricket {
    /// The game has at most ten players, each with the seven entries.
    pub open spec fn wf(&self) -> bool {
        valid_players(self@)
    }

    /// A game of `num_players` players, of ten where more are asked for.
    pub fn new(num_players: usize) -> (game: DartsCricket)
        ensures
            game.wf(),
            game@ == fresh_players(if num_players <= MAX_PLAYERS { num_players as nat } else { MAX_PLAYERS as nat }),
    {
        let num_players = if num_players <= MAX_PLAYERS { num_players } else { MAX_PLAYERS };
        let mut players: Vec<Player> = Vec::new();
        let mut i: usize = 0;
        while i < num_players
            invariant
                i <= num_players,
                players@.len() == i,
                forall|k: int| 0 <= k < i ==> (#[trigger] players@[k])@ == PlayerState::fresh(),
            decreases num_players - i,
        {
            players.push(Player::new());
            i += 1;
        }
        let game = DartsCricket { players };
        assert(game@ =~= fresh_players(num_players as nat));
        game
    }

    /// Tells whether every player but `player_idx` has closed `target`.
    fn opponents_closed(&self, player_idx: usize, target: u32) -> (closed: bool)
        ensures
            closed == opponents_closed(self@, player_idx as int, target),
    {
        let mut closed = true;
        let mut idx: usize = 0;
        while idx < self.players.len()
            invariant
                idx <= self.players.len(),
                closed <==> forall|j: int|
                    0 <= j < idx && j != player_idx ==> (#[trigger] self@[j]).has_closed(target),
            decreases self.players.len() - idx,
        {
            assert(self@[idx as int] == self.players@[idx as int]@);
            if idx != player_idx && !self.players[idx].is_number_closed(target) {
                closed = false;
            }
            idx += 1;
        }
        closed
    }

    /// Tells whether the turn can be recorded: whether it leaves the player's
    /// hit count and score within 32 bits.
    pub fn can_record_hit(&self, player_idx: usize, target: u32, hits: u32) -> (fits: bool)
        requires
            self.wf(),
        ensures
            fits == hit_fits(self@, player_idx as int, target, hits as nat),
    {
        if player_idx >= self.players.len() || !is_valid_target(target) {
            return true;
        }
        let total: u64 = self.players[player_idx].get_hits(target) as u64 + hits as u64;
        if total > u32::MAX as u64 {
            return false;
        }
        if total >= CLOSING_HITS as u64 && !self.opponents_closed(player_idx, target) {
            assert((total - 2) * target <= u32::MAX * 25) by (nonlinear_arith)
                requires
                    2 <= total <= u32::MAX,
                    target <= 25,
            ;
            let points: u64 = (total - 2) * target as u64;
            if self.players[player_idx].score as u64 + points > u32::MAX as u64 {
                return false;
            }
        }
        true
    }

    /// Records one turn: `hits` hits of player `player_idx` on `target`.
    ///
    /// A turn that names no player of the game, or no target, is refused and
    /// changes nothing. Any other turn is recorded: the hits are counted, and
    /// where the turn scores the points are added to the player's score.
    pub fn record_hit(&mut self, player_idx: usize, target: u32, hits: u32) -> (accepted: bool)
        requires
            old(self).wf(),
            hit_fits(old(self)@, player_idx as int, target, hits as nat),
        ensures
            final(self).wf(),
            accepted == hit_accepted(old(self)@, player_idx as int, target),
            final(self)@ == after_hit(old(self)@, player_idx as int, target, hits as nat),
            final(self)@.len() == old(self)@.len(),
            !accepted ==> final(self)@ == old(self)@,
            accepted ==> hits_of(final(self)@, player_idx as int, target) == hits_of(
                old(self)@,
                player_idx as int,
                target,
            ) + hits,
    {
        if player_idx >= self.players.len() || !is_valid_target(target) {
            return false;
        }
        let ghost before = self@;
        let current_hits = self.players[player_idx].get_hits(target);
        self.players[player_idx].record_hit(target, hits);
        assert(self@.len() == before.len());
        assert(forall|j: int| 0 <= j < before.len() && j != player_idx ==> self@[j] == before[j]);

        if current_hits + hits >= CLOSING_HITS {
            let other_players_closed = self.opponents_closed(player_idx, target);
            proof {
                if opponents_closed(before, player_idx as int, target) {
                    assert forall|j: int| 0 <= j < self@.len() && j != player_idx implies (
                    #[trigger] self@[j]).has_closed(target) by {
                        assert(before[j].has_closed(target));
                    }
                } else {
                    let j = choose|j: int|
                        0 <= j < before.len() && j != player_idx && !(#[trigger] before[j]).has_closed(target);
                    assert(!self@[j].has_closed(target));
                }
            }
            if !other_players_closed {
                let points = (current_hits + hits - 2) * target;
                self.players[player_idx].score += points;
            }
        }
        assert(self@ =~= after_hit(before, player_idx as int, target, hits as nat));
        true
    }

    /// The score of player `player_idx`; zero where the game has no such
    /// player.
    pub fn get_player_score(&self, player_idx: usize) -> (score: u32)
        ensures
            score == score_of(self@, player_idx as int),
    {
        if player_idx < self.players.len() {
            self.players[player_idx].score
        } else {
            0
        }
    }

    /// The hits of player `player_idx` on `target`; zero where the game has no
    /// such player or `target` is no target.
    pub fn get_player_hits(&self, player_idx: usize, target: u32) -> (hits: u32)
        requires
            self.wf(),
        ensures
            hits == hits_of(self@, player_idx as int, target),
    {
        if player_idx < self.players.len() {
            assert(self@[player_idx as int].valid());
            self.players[player_idx].get_hits(target)
        } else {
            0
        }
    }

    /// The status of the game: every player's score and hits.
    pub fn get_game_status(&self) -> (status: GameStatus)
        ensures
            status@ == status_of(self@),
            status.players@.len() == self@.len(),
            status.scores@.len() == self@.len(),
            status.hits@.len() == self@.len(),
            forall|i: int| 0 <= i < self@.len() ==> (#[trigger] status.hits@[i])@.len() == TARGETS@.len(),
    {
        let mut players: Vec<usize> = Vec::new();
        let mut scores: Vec<u32> = Vec::new();
        let mut hits: Vec<Vec<u32>> = Vec::new();
        let mut i: usize = 0;
        while i < self.players.len()
            invariant
                i <= self.players.len(),
                players@.len() == i,
                scores@.len() == i,
                hits@.len() == i,
                forall|k: int| 0 <= k < i ==> players@[k] == k,
                forall|k: int| 0 <= k < i ==> scores@[k] == self@[k].score,
                forall|k: int| 0 <= k < i ==> row_view((#[trigger] hits@[k])@) == hit_row(self@[k]),
                forall|k: int| 0 <= k < i ==> (#[trigger] hits@[k])@.len() == TARGETS@.len(),
            decreases self.players.len() - i,
        {
            assert(self@[i as int] == self.players@[i as int]@);
            let mut row: Vec<u32> = Vec::new();
            let mut t: usize = 0;
            while t < TARGETS.len()
                invariant
                    i < self.players.len(),
                    t <= TARGETS.len(),
                    row@.len() == t,
                    forall|k: int| 0 <= k < t ==> row@[k] == self.players@[i as int]@.hits_on(TARGETS@[k]),
                decreases TARGETS.len() - t,
            {
                row.push(self.players[i].get_hits(TARGETS[t]));
                t += 1;
            }
            assert(row_view(row@) =~= hit_row(self@[i as int]));
            players.push(i);
            scores.push(self.players[i].score);
            hits.push(row);
            i += 1;
        }
        let status = GameStatus { players, scores, hits };
        assert(status@.players =~= status_of(self@).players);
        assert(status@.scores =~= status_of(self@).scores);
        assert(status@.hits =~= status_of(self@).hits);
        status
    }
}

/// Every player's score and hits at one moment of a game, the players in
/// their order and the targets in the order of `TARGETS`.
pub struct GameStatus {
    pub players: Vec<usize>,
    pub scores: Vec<u32>,
    pub hits: Vec<Vec<u32>>,
}

/// The hit counts of one row of a status as numbers.
pub open spec fn row_view(row: Seq<u32>) -> Seq<nat> {
    Seq::new(row.len(), |k: int| row[k] as nat)
}

impl View for GameStatus {
    type V = StatusView;

    open spec fn view(&self) -> StatusView {
        StatusView {
            players: Seq::new(self.players@.len(), |i: int| self.players@[i] as nat),
            scores: Seq::new(self.scores@.len(), |i: int| self.scores@[i] as nat),
            hits: Seq::new(self.hits@.len(), |i: int| row_view(self.hits@[i]@)),
        }
    }
}

} // verus!
