use std::collections::HashMap;
use vstd::prelude::*;
use vstd::std_specs::hash::group_hash_axioms;

use crate::player::{Players, PlayersView};

verus! {

broadcast use group_hash_axioms;

/// A table of records by player id, each record by its view.
pub open spec fn roster_view(players: Map<u8, Players>) -> Map<u8, PlayersView> {
    Map::new(|id: u8| players.contains_key(id), |id: u8| players[id]@)
}

/// The record under `id` belongs to the session `client_id`.
pub open spec fn owns(players: Map<u8, PlayersView>, client_id: u64, id: u8) -> bool {
    players.contains_key(id) && players[id].client_id == client_id
}

/// `id` is the lowest player id whose record belongs to the session `client_id`.
pub open spec fn is_first_owner(players: Map<u8, PlayersView>, client_id: u64, id: u8) -> bool {
    &&& owns(players, client_id, id)
    &&& forall|lower: u8| lower < id ==> !owns(players, client_id, lower)
}

/// The player that the session `client_id` plays: the lowest id among the
/// records that carry this session, `None` where no record does.
pub open spec fn player_of(players: Map<u8, PlayersView>, client_id: u64) -> Option<u8> {
    if exists|id: u8| is_first_owner(players, client_id, id) {
        Some(choose|id: u8| is_first_owner(players, client_id, id))
    } else {
        None
    }
}

/// A lowest owner is the only one, so it is what `player_of` names.
pub proof fn lemma_first_owner_is_player_of(
    players: Map<u8, PlayersView>,
    client_id: u64,
    id: u8,
)
    requires
        is_first_owner(players, client_id, id),
    ensures
        player_of(players, client_id) == Some(id),
{
    let chosen = choose|id: u8| is_first_owner(players, client_id, id);
    assert(is_first_owner(players, client_id, chosen));
    assert(!(chosen < id));
    assert(!(id < chosen));
}

/// Where no record carries the session, `player_of` names nobody.
pub proof fn lemma_no_owner_no_player(players: Map<u8, PlayersView>, client_id: u64)
    requires
        forall|id: u8| !owns(players, client_id, id),
    ensures
        player_of(players, client_id) is None,
{
}

/// What `player_of` names owns a record, and nobody below it does; where it
/// names nobody, no record carries the session.
pub proof fn lemma_player_of(players: Map<u8, PlayersView>, client_id: u64)
    ensures
        match player_of(players, client_id) {
            Some(id) => is_first_owner(players, client_id, id),
            None => forall|id: u8| !owns(players, client_id, id),
        },
{
    if player_of(players, client_id) is None {
        assert forall|id: u8| !owns(players, client_id, id) by {
            if owns(players, client_id, id) {
                lemma_lowest_owner_exists(players, client_id, id);
            }
        }
    }
}

/// Below any owner there is a lowest one.
proof fn lemma_lowest_owner_exists(players: Map<u8, PlayersView>, client_id: u64, id: u8)
    requires
        owns(players, client_id, id),
    ensures
        exists|first: u8| is_first_owner(players, client_id, first),
    decreases id,
{
    if exists|lower: u8| lower < id && owns(players, client_id, lower) {
        let lower = choose|lower: u8| lower < id && owns(players, client_id, lower);
        lemma_lowest_owner_exists(players, client_id, lower);
    } else {
        assert(is_first_owner(players, client_id, id));
    }
}

/// Looks up which player the session `client_id` plays.
pub fn find_player(players: &HashMap<u8, Players>, client_id: u64) -> (found: Option<u8>)
    ensures
        found == player_of(roster_view(players@), client_id),
{
    let ghost table = roster_view(players@);
    let mut id: u8 = 0;
    loop
        invariant
            table == roster_view(players@),
            forall|lower: u8| lower < id ==> !owns(table, client_id, lower),
        decreases u8::MAX - id,
    {
        match players.get(&id) {
            Some(record) => {
                if record.client_id == client_id {
                    proof {
                        lemma_first_owner_is_player_of(table, client_id, id);
                    }
                    return Some(id);
                }
            },
            None => {},
        }
        if id == u8::MAX {
            proof {
                lemma_no_owner_no_player(table, client_id);
            }
            return None;
        }
        id = id + 1;
    }
}

/// The lowest player id in the table, `None` where the table is empty.
pub fn lowest_id(players: &HashMap<u8, Players>) -> (found: Option<u8>)
    ensures
        match found {
            Some(id) => players@.contains_key(id) && forall|lower: u8|
                lower < id ==> !players@.contains_key(lower),
            None => forall|id: u8| !players@.contains_key(id),
        },
{
    let mut id: u8 = 0;
    loop
        invariant
            forall|lower: u8| lower < id ==> !players@.contains_key(lower),
        decreases u8::MAX - id,
    {
        if players.contains_key(&id) {
            return Some(id);
        }
        if id == u8::MAX {
            return None;
        }
        id = id + 1;
    }
}

/// Every record but the one under `id`.
pub fn others(players: &HashMap<u8, Players>, id: u8) -> (list: HashMap<u8, Players>)
    ensures
        roster_view(list@) == roster_view(players@).remove(id),
{
    let mut list = players.clone();
    list.remove(&id);
    list
}

} // verus!
