//! Room-level laws: properties that hold of every room, stated over the
//! mathematical model that the contracts of `room` speak of, and proved
//! once and for all.

use vstd::prelude::*;
use crate::player::PlayerRole;
use crate::player::PlayerV;
use crate::room::{
    after_join, has_admin, initial_game, join_accepted, nickname_taken, role_for_join,
    spec_start, start_authorized, GameV, StartGameResponse, StateV,
};

verus! {

/// The room after a run of joins, one per nickname, each with its id.
pub open spec fn after_joins(g: GameV, nicks: Seq<Seq<char>>, ids: Seq<u128>) -> GameV
    decreases nicks.len(),
{
    if nicks.len() == 0 {
        g
    } else {
        after_joins(after_join(g, nicks[0], ids[0]), nicks.drop_first(), ids.drop_first())
    }
}

/// Whether every join of such a run is accepted, each against the roster the
/// earlier ones left behind.
pub open spec fn all_joins_accepted(g: GameV, nicks: Seq<Seq<char>>, ids: Seq<u128>) -> bool
    decreases nicks.len(),
{
    if nicks.len() == 0 {
        true
    } else {
        join_accepted(g, nicks[0]) && all_joins_accepted(
            after_join(g, nicks[0], ids[0]),
            nicks.drop_first(),
            ids.drop_first(),
        )
    }
}

/// Law: a run of joins whose nicknames are pairwise distinct and all free is
/// accepted in full, and the roster grows by exactly one player per call.
pub proof fn lemma_distinct_joins_all_accepted(g: GameV, nicks: Seq<Seq<char>>, ids: Seq<u128>)
    requires
        ids.len() == nicks.len(),
        g.state is Lobby || g.settings.allow_spectators,
        forall|a: int, b: int| 0 <= a < b < nicks.len() ==> nicks[a] != nicks[b],
        forall|a: int| 0 <= a < nicks.len() ==> !nickname_taken(g.players, #[trigger] nicks[a]),
    ensures
        all_joins_accepted(g, nicks, ids),
        after_joins(g, nicks, ids).players.len() == g.players.len() + nicks.len(),
    decreases nicks.len(),
{
    if nicks.len() > 0 {
        let g1 = after_join(g, nicks[0], ids[0]);
        let rest = nicks.drop_first();
        assert(g1.state == g.state);
        assert forall|a: int| 0 <= a < rest.len() implies !nickname_taken(
            g1.players,
            #[trigger] rest[a],
        ) by {
            assert(rest[a] == nicks[a + 1]);
            assert(nicks[0] != nicks[a + 1]);
            assert(!nickname_taken(g.players, nicks[a + 1]));
            let n = g.players.len() as int;
            assert forall|i: int| 0 <= i < g1.players.len() implies (#[trigger] g1.players[i]).nickname
                != nicks[a + 1] by {
                if i < n {
                    assert(g1.players[i] == g.players[i]);
                    assert(!(g.players[i].nickname == nicks[a + 1]));
                } else {
                    assert(g1.players[i].nickname == nicks[0]);
                }
            }
        }
        lemma_distinct_joins_all_accepted(g1, rest, ids.drop_first());
    }
}

/// Law: a join with a nickname some present player already carries is never
/// accepted. Together with the contract of `Game::join` — which returns
/// `NicknameIsTaken` exactly on a taken nickname and leaves the room
/// unchanged on every refusal — rejection is non-mutating and repeatable.
pub proof fn lemma_taken_nickname_rejected(g: GameV, nick: Seq<char>)
    requires
        nickname_taken(g.players, nick),
    ensures
        !join_accepted(g, nick),
{
}

/// Law: the role a joiner receives follows the room's state at that instant:
/// a join into a non-empty lobby yields Member, and a join during play
/// yields Spectator. (The one join into an empty lobby claims Admin
/// instead: that is how the room's creator gains the authority to start.)
pub proof fn lemma_join_role_follows_state(g: GameV)
    ensures
        g.state is Lobby && g.players.len() > 0 ==> role_for_join(g) == PlayerRole::Member,
        !(g.state is Lobby) ==> role_for_join(g) == PlayerRole::Spectator,
{
}

/// Law: a start request by anyone who is not a present admin — including an
/// id that matches nobody — is refused and changes nothing, whatever state
/// the room is in.
pub proof fn lemma_unauthorized_start_changes_nothing(g: GameV, initiator: u128)
    requires
        !start_authorized(g, initiator),
    ensures
        spec_start(g, initiator) == (g, StartGameResponse::Unauthorized),
{
}

/// Law: starting is one-way and happens exactly once. An authorized start
/// from the lobby begins play at the initial game; a second start request,
/// by the same or any other admin, reports the game as already started and
/// leaves the game — prompt, turn and round included — untouched.
pub proof fn lemma_start_game_exactly_once(g: GameV, first: u128, second: u128)
    requires
        g.state is Lobby,
        start_authorized(g, first),
        start_authorized(g, second),
    ensures
        ({
            let (g1, r1) = spec_start(g, first);
            let (g2, r2) = spec_start(g1, second);
            &&& r1 == StartGameResponse::Started
            &&& g1.state == StateV::Playing(initial_game(g.settings))
            &&& r2 == StartGameResponse::GameAlreadyStarted
            &&& g2 == g1
        }),
{
    let (g1, r1) = spec_start(g, first);
    assert(g1.players == g.players);
    assert(start_authorized(g1, second));
}

/// How many present players hold the admin role.
pub open spec fn admin_count(players: Seq<PlayerV>) -> nat
    decreases players.len(),
{
    if players.len() == 0 {
        0
    } else {
        admin_count(players.drop_last()) + if players.last().role is Admin {
            1nat
        } else {
            0nat
        }
    }
}

/// A roster in which nobody holds the admin role has an admin count of zero.
proof fn lemma_admin_count_zero(players: Seq<PlayerV>)
    requires
        forall|i: int| 0 <= i < players.len() ==> !((#[trigger] players[i]).role is Admin),
    ensures
        admin_count(players) == 0,
    decreases players.len(),
{
    if players.len() > 0 {
        lemma_admin_count_zero(players.drop_last());
    }
}

/// Law: a well-formed room never holds two admins — the admin count of its
/// roster is zero or one.
pub proof fn lemma_at_most_one_admin(g: GameV)
    requires
        g.wf(),
    ensures
        admin_count(g.players) <= 1,
{
    lemma_no_admin_pair_bounds_count(g.players);
}

/// The counted form of the pairwise no-two-admins invariant.
proof fn lemma_no_admin_pair_bounds_count(players: Seq<PlayerV>)
    requires
        forall|i: int, j: int|
            0 <= i < j < players.len() ==> !((#[trigger] players[i]).role is Admin && (
            #[trigger] players[j]).role is Admin),
    ensures
        admin_count(players) <= 1,
    decreases players.len(),
{
    if players.len() > 0 {
        let rest = players.drop_last();
        let n = players.len() as int;
        assert(forall|i: int| 0 <= i < rest.len() ==> rest[i] == players[i]);
        if players.last().role is Admin {
            assert forall|i: int| 0 <= i < rest.len() implies !((#[trigger] rest[i]).role is Admin) by {
                assert(!(players[i].role is Admin && players[n - 1].role is Admin));
            }
            lemma_admin_count_zero(rest);
        } else {
            lemma_no_admin_pair_bounds_count(rest);
        }
    }
}

/// Law: a join never hands out a second admin role — only the very first
/// join of a lobby yields Admin, and a roster that already has players (in
/// particular one that already has an admin) never does.
pub proof fn lemma_join_preserves_single_admin(g: GameV)
    ensures
        has_admin(g.players) ==> role_for_join(g) != PlayerRole::Admin,
{
    if has_admin(g.players) {
        let i = choose|i: int| 0 <= i < g.players.len() && g.players[i].role is Admin;
        assert(g.players.len() > 0);
    }
}

} // verus!
