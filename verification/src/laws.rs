//! What holds of every game, proved over the definitions of `model`.

use vstd::prelude::*;
use crate::model::{
    after_hit, fresh_players, hit_accepted, hits_of, opponents_closed, points_awarded, score_of,
    status_of, valid_players, PlayerState,
};
use crate::targets::{is_target, point_value, CLOSING_HITS, MAX_PLAYERS, TARGETS};

verus! {

/// One turn as it is reported: who threw, at what, and how many hits landed.
pub struct Turn {
    pub player: int,
    pub target: u32,
    pub hits: nat,
}

/// The game after the turns of `turns`, taken in order. Each is recorded or
/// refused as `after_hit` says.
pub open spec fn after_turns(players: Seq<PlayerState>, turns: Seq<Turn>) -> Seq<PlayerState>
    decreases turns.len(),
{
    if turns.len() == 0 {
        players
    } else {
        let turn = turns.last();
        after_hit(after_turns(players, turns.drop_last()), turn.player, turn.target, turn.hits)
    }
}

/// After an accepted turn the player's hits on the target are the hits
/// before it plus the hits of the turn, whether or not the turn scored.
pub proof fn lemma_hits_accumulate(players: Seq<PlayerState>, player: int, target: u32, count: nat)
    requires
        hit_accepted(players, player, target),
    ensures
        hits_of(after_hit(players, player, target, count), player, target) == hits_of(
            players,
            player,
            target,
        ) + count,
{
}

/// An accepted turn changes no hit count but the player's on the target.
pub proof fn lemma_other_hits_unchanged(
    players: Seq<PlayerState>,
    player: int,
    target: u32,
    count: nat,
    other_player: int,
    other_target: u32,
)
    requires
        other_player != player || other_target != target,
    ensures
        hits_of(after_hit(players, player, target, count), other_player, other_target) == hits_of(
            players,
            other_player,
            other_target,
        ),
{
}

/// A turn that names no player of the game, or no target, is refused and
/// leaves the whole game as it was.
pub proof fn lemma_refused_hit_changes_nothing(
    players: Seq<PlayerState>,
    player: int,
    target: u32,
    count: nat,
)
    requires
        !(0 <= player < players.len()) || !is_target(target),
    ensures
        !hit_accepted(players, player, target),
        after_hit(players, player, target, count) == players,
{
}

/// An accepted turn adds to the player's score exactly the points it earns,
/// and leaves every other score as it was.
pub proof fn lemma_score_after_hit(
    players: Seq<PlayerState>,
    player: int,
    target: u32,
    count: nat,
    any_player: int,
)
    requires
        hit_accepted(players, player, target),
    ensures
        score_of(after_hit(players, player, target, count), any_player) == score_of(players, any_player)
            + (if any_player == player {
            points_awarded(players, player, target, count)
        } else {
            0
        }),
{
}

/// No turn lowers a score.
pub proof fn lemma_score_never_falls(
    players: Seq<PlayerState>,
    player: int,
    target: u32,
    count: nat,
    any_player: int,
)
    ensures
        score_of(after_hit(players, player, target, count), any_player) >= score_of(players, any_player),
{
}

/// A turn that leaves the player under three hits on the target earns
/// nothing, and so does any turn on a target that every opponent has closed.
pub proof fn lemma_no_points(players: Seq<PlayerState>, player: int, target: u32, count: nat)
    requires
        players[player].hits_on(target) + count < CLOSING_HITS || opponents_closed(
            players,
            player,
            target,
        ),
    ensures
        points_awarded(players, player, target, count) == 0,
{
}

/// A turn that reaches three hits while some opponent has the target open
/// earns the target's value for each hit of the total beyond the second.
pub proof fn lemma_points(players: Seq<PlayerState>, player: int, target: u32, count: nat)
    requires
        players[player].hits_on(target) + count >= CLOSING_HITS,
        !opponents_closed(players, player, target),
    ensures
        points_awarded(players, player, target, count) == (players[player].hits_on(target) + count
            - 2) * point_value(target),
{
    assert((players[player].hits_on(target) + count - 2) * point_value(target) >= 0) by (nonlinear_arith)
        requires
            players[player].hits_on(target) + count - 2 >= 0,
            point_value(target) >= 0,
    ;
}

/// A game before its first turn is one that the engine can hold, for every
/// number of players up to ten.
pub proof fn lemma_fresh_players_valid(count: nat)
    requires
        count <= MAX_PLAYERS,
    ensures
        valid_players(fresh_players(count)),
        fresh_players(count).len() == count,
        forall|i: int, target: u32|
            0 <= i < count ==> score_of(fresh_players(count), i) == 0 && hits_of(
                fresh_players(count),
                i,
                target,
            ) == 0,
{
}

/// No turn, recorded or refused, changes the number of players or takes a
/// target's entry from a player.
pub proof fn lemma_after_hit_valid(players: Seq<PlayerState>, player: int, target: u32, count: nat)
    requires
        valid_players(players),
    ensures
        valid_players(after_hit(players, player, target, count)),
        after_hit(players, player, target, count).len() == players.len(),
{
    let after = after_hit(players, player, target, count);
    assert forall|i: int| 0 <= i < after.len() implies (#[trigger] after[i]).valid() by {
        assert(players[i].valid());
    }
}

/// Whatever turns were reported, accepted or not, the game has the players
/// it began with, and stays one that the engine can hold.
pub proof fn lemma_after_turns_valid(players: Seq<PlayerState>, turns: Seq<Turn>)
    requires
        valid_players(players),
    ensures
        valid_players(after_turns(players, turns)),
        after_turns(players, turns).len() == players.len(),
    decreases turns.len(),
{
    if turns.len() > 0 {
        let turn = turns.last();
        lemma_after_turns_valid(players, turns.drop_last());
        lemma_after_hit_valid(after_turns(players, turns.drop_last()), turn.player, turn.target, turn.hits);
    }
}

/// Whatever turns were reported, accepted or not, the status lists one
/// place, one score and one row of hits for each player the game began with,
/// and each row has one count for each target.
pub proof fn lemma_status_covers_every_player(players: Seq<PlayerState>, turns: Seq<Turn>)
    ensures
        status_of(after_turns(players, turns)).players.len() == players.len(),
        status_of(after_turns(players, turns)).scores.len() == players.len(),
        status_of(after_turns(players, turns)).hits.len() == players.len(),
        forall|i: int|
            0 <= i < players.len() ==> (#[trigger] status_of(after_turns(players, turns)).hits[i]).len()
                == TARGETS@.len(),
{
    lemma_after_turns_keep_players(players, turns);
}

/// Whatever turns were reported, the game has as many players as it began
/// with.
pub proof fn lemma_after_turns_keep_players(players: Seq<PlayerState>, turns: Seq<Turn>)
    ensures
        after_turns(players, turns).len() == players.len(),
    decreases turns.len(),
{
    if turns.len() > 0 {
        lemma_after_turns_keep_players(players, turns.drop_last());
    }
}

/// Over any turns, no score falls.
pub proof fn lemma_scores_never_fall(players: Seq<PlayerState>, turns: Seq<Turn>, any_player: int)
    ensures
        score_of(after_turns(players, turns), any_player) >= score_of(players, any_player),
    decreases turns.len(),
{
    if turns.len() > 0 {
        let turn = turns.last();
        lemma_scores_never_fall(players, turns.drop_last(), any_player);
        lemma_score_never_falls(
            after_turns(players, turns.drop_last()),
            turn.player,
            turn.target,
            turn.hits,
            any_player,
        );
    }
}

} // verus!
