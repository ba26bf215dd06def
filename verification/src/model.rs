//! The game as mathematics: what a player and a game are, and what one
//! recorded turn does to them. The contracts of the engine are stated over
//! these definitions.

use vstd::prelude::*;
use crate::targets::{is_target, point_value, CLOSING_HITS, MAX_PLAYERS, TARGETS};

verus! {

/// One player: the score so far and the hits so far on each target.
pub struct PlayerState {
    pub score: nat,
    pub hits: Map<u32, nat>,
}

impl PlayerState {
    /// A player at the start of a game: no points, and an entry of zero hits
    /// for each of the seven targets.
    pub open spec fn fresh() -> PlayerState {
        PlayerState { score: 0, hits: Map::new(|t: u32| is_target(t), |t: u32| 0nat) }
    }

    /// The player has an entry for each of the seven targets and for nothing
    /// else.
    pub open spec fn valid(self) -> bool {
        forall|t: u32| self.hits.contains_key(t) <==> is_target(t)
    }

    /// The hits on `target` so far; zero for what the player has no entry for.
    pub open spec fn hits_on(self, target: u32) -> nat {
        if self.hits.contains_key(target) {
            self.hits[target]
        } else {
            0
        }
    }

    /// The player has closed `target`: three hits or more are recorded on it.
    pub open spec fn has_closed(self, target: u32) -> bool {
        self.hits_on(target) >= CLOSING_HITS
    }

    /// The player after `count` more hits on `target`. What is no target is
    /// not counted; the score stays as it is.
    pub open spec fn add_hits(self, target: u32, count: nat) -> PlayerState {
        if is_target(target) {
            PlayerState { score: self.score, hits: self.hits.insert(target, self.hits_on(target) + count) }
        } else {
            self
        }
    }

    /// The player after `points` more points.
    pub open spec fn add_score(self, points: nat) -> PlayerState {
        PlayerState { score: self.score + points, hits: self.hits }
    }
}

/// A game of `count` players before the first turn.
pub open spec fn fresh_players(count: nat) -> Seq<PlayerState> {
    Seq::new(count, |i: int| PlayerState::fresh())
}

/// A game that the engine can hold: at most ten players, each with the seven
/// entries.
pub open spec fn valid_players(players: Seq<PlayerState>) -> bool {
    &&& players.len() <= MAX_PLAYERS
    &&& forall|i: int| 0 <= i < players.len() ==> (#[trigger] players[i]).valid()
}

/// A turn is accepted when it names a player of the game and one of the seven
/// targets.
pub open spec fn hit_accepted(players: Seq<PlayerState>, player: int, target: u32) -> bool {
    0 <= player < players.len() && is_target(target)
}

/// Every player but `player` has closed `target`. With no opponent in the
/// game this holds.
pub open spec fn opponents_closed(players: Seq<PlayerState>, player: int, target: u32) -> bool {
    forall|j: int| 0 <= j < players.len() && j != player ==> (#[trigger] players[j]).has_closed(target)
}

/// The points that an accepted turn of `count` hits on `target` earns.
///
/// A turn scores when it leaves the player with three or more hits on the
/// target while some opponent has not closed it. It then earns the target's
/// value for each hit of the player's total beyond the second: the total, not
/// the hits of this turn alone.
pub open spec fn points_awarded(players: Seq<PlayerState>, player: int, target: u32, count: nat) -> nat {
    let total = players[player].hits_on(target) + count;
    if total >= CLOSING_HITS && !opponents_closed(players, player, target) {
        ((total - 2) * point_value(target)) as nat
    } else {
        0
    }
}

/// The game after the turn. A turn that is not accepted changes nothing; an
/// accepted one counts the hits and adds the points it earns, for the player
/// who threw and for nobody else.
pub open spec fn after_hit(players: Seq<PlayerState>, player: int, target: u32, count: nat) -> Seq<PlayerState> {
    if hit_accepted(players, player, target) {
        players.update(
            player,
            players[player].add_hits(target, count).add_score(points_awarded(players, player, target, count)),
        )
    } else {
        players
    }
}

/// The turn leaves the player's hit count and score within 32 bits. A turn
/// that is not accepted always does.
pub open spec fn hit_fits(players: Seq<PlayerState>, player: int, target: u32, count: nat) -> bool {
    hit_accepted(players, player, target) ==> {
        &&& players[player].hits_on(target) + count <= u32::MAX
        &&& players[player].score + points_awarded(players, player, target, count) <= u32::MAX
    }
}

/// The score of player `player`; zero where the game has no such player.
pub open spec fn score_of(players: Seq<PlayerState>, player: int) -> nat {
    if 0 <= player < players.len() {
        players[player].score
    } else {
        0
    }
}

/// The hits of player `player` on `target`; zero where the game has no such
/// player or `target` is no target.
pub open spec fn hits_of(players: Seq<PlayerState>, player: int, target: u32) -> nat {
    if 0 <= player < players.len() && is_target(target) {
        players[player].hits_on(target)
    } else {
        0
    }
}

/// What a status holds: for each player in order the place in that order and
/// the score, and the hits on each target in the order of `TARGETS`.
pub struct StatusView {
    pub players: Seq<nat>,
    pub scores: Seq<nat>,
    pub hits: Seq<Seq<nat>>,
}

/// The hits of one player on each target, in the order of `TARGETS`.
pub open spec fn hit_row(player: PlayerState) -> Seq<nat> {
    Seq::new(TARGETS@.len(), |k: int| player.hits_on(TARGETS@[k]))
}

/// The status of a game.
pub open spec fn status_of(players: Seq<PlayerState>) -> StatusView {
    StatusView {
        players: Seq::new(players.len(), |i: int| i as nat),
        scores: Seq::new(players.len(), |i: int| players[i].score),
        hits: Seq::new(players.len(), |i: int| hit_row(players[i])),
    }
}

} // verus!
