//! The room: a single game instance and the state machine that arbitrates
//! joins, role assignment, game start and turn advancement.
//!
//! All mutation of one room goes through `&mut self` methods, so a room that
//! is owned by one worker (or guarded by one lock) processes commands one at
//! a time; rooms share no state with each other.

use vstd::prelude::*;
use crate::gen::{fresh_id, random_room_code};
use crate::player::{Player, PlayerRole, PlayerV};
use crate::settings::{GameSettings, GameSettingsV};

verus! {

/// Room codes are drawn from the alphanumeric alphabet.
pub open spec fn is_code_char(c: char) -> bool {
    ||| 'a' <= c && c <= 'z'
    ||| 'A' <= c && c <= 'Z'
    ||| '0' <= c && c <= '9'
}

/// The live part of a room once play has begun.
///
/// `current_turn_index` indexes into the subsequence of non-spectator
/// players, not the full roster. `prompt_cursor` is the position of
/// `current_prompt` in the settings' prompt list: prompts are taken
/// sequentially, wrapping around at the end of the list.
pub struct OngoingGame {
    pub current_prompt: String,
    pub current_turn_index: usize,
    pub current_round: u8,
    pub prompt_cursor: usize,
}

/// Mathematical model of an ongoing game.
pub struct OngoingGameV {
    pub current_prompt: Seq<char>,
    pub current_turn_index: int,
    pub current_round: int,
    pub prompt_cursor: int,
}

impl View for OngoingGame {
    type V = OngoingGameV;

    open spec fn view(&self) -> OngoingGameV {
        OngoingGameV {
            current_prompt: self.current_prompt@,
            current_turn_index: self.current_turn_index as int,
            current_round: self.current_round as int,
            prompt_cursor: self.prompt_cursor as int,
        }
    }
}

/// Where a room stands: accepting members, playing, or done with its rounds.
pub enum State {
    Lobby,
    Playing(OngoingGame),
    Finished,
}

/// Mathematical model of a room's state.
pub enum StateV {
    Lobby,
    Playing(OngoingGameV),
    Finished,
}

impl View for State {
    type V = StateV;

    open spec fn view(&self) -> StateV {
        match self {
            State::Lobby => StateV::Lobby,
            State::Playing(og) => StateV::Playing(og@),
            State::Finished => StateV::Finished,
        }
    }
}

/// One game room: identity, shareable code, roster, state and settings.
pub struct Game {
    pub id: u128,
    pub state: State,
    pub room_code: String,
    pub players: Vec<Player>,
    pub settings: GameSettings,
}

/// Mathematical model of a room.
pub struct GameV {
    pub id: u128,
    pub state: StateV,
    pub room_code: Seq<char>,
    pub players: Seq<PlayerV>,
    pub settings: GameSettingsV,
}

impl View for Game {
    type V = GameV;

    open spec fn view(&self) -> GameV {
        GameV {
            id: self.id,
            state: self.state@,
            room_code: self.room_code@,
            players: self.players@.map_values(|p: Player| p@),
            settings: self.settings@,
        }
    }
}

/// Reply to a join request: the new player's id and role, or the reason the
/// join was refused.
#[derive(Clone, Copy, Debug, PartialEq, Eq, Structural)]
pub enum PlayerJoinResponse {
    Success(u128, PlayerRole),
    NicknameIsTaken,
    SpectatorsNotAllowed,
}

/// Reply to a start request.
#[derive(Clone, Copy, Debug, PartialEq, Eq, Structural)]
pub enum StartGameResponse {
    Started,
    GameAlreadyStarted,
    Unauthorized,
}

/// Reply to a turn-advancement request.
#[derive(Clone, Copy, Debug, PartialEq, Eq, Structural)]
pub enum AdvanceTurnResponse {
    Advanced,
    GameFinished,
    NotPlaying,
}

/// Whether some present player already carries this nickname.
pub open spec fn nickname_taken(players: Seq<PlayerV>, nick: Seq<char>) -> bool {
    exists|i: int| 0 <= i < players.len() && players[i].nickname == nick
}

/// How many players take turns: everyone but the spectators.
pub open spec fn non_spectator_count(players: Seq<PlayerV>) -> nat
    decreases players.len(),
{
    if players.len() == 0 {
        0
    } else {
        non_spectator_count(players.drop_last()) + if players.last().role is Spectator {
            0nat
        } else {
            1nat
        }
    }
}

/// Whether some present player holds the admin role.
pub open spec fn has_admin(players: Seq<PlayerV>) -> bool {
    exists|i: int| 0 <= i < players.len() && players[i].role is Admin
}

/// Whether `initiator` identifies a present player with the admin role.
pub open spec fn start_authorized(g: GameV, initiator: u128) -> bool {
    exists|i: int|
        0 <= i < g.players.len() && g.players[i].id == initiator && g.players[i].role is Admin
}

/// The role a joiner receives, decided by the room's state at that instant:
/// the first joiner of the lobby claims Admin, later lobby joiners are
/// Members, and anyone arriving once play has begun is a Spectator.
pub open spec fn role_for_join(g: GameV) -> PlayerRole {
    match g.state {
        StateV::Lobby => if g.players.len() == 0 {
            PlayerRole::Admin
        } else {
            PlayerRole::Member
        },
        _ => PlayerRole::Spectator,
    }
}

/// Whether a join with this nickname is accepted: the nickname must be free,
/// and a room that has left the lobby only admits joiners when it allows
/// spectators.
pub open spec fn join_accepted(g: GameV, nick: Seq<char>) -> bool {
    &&& !nickname_taken(g.players, nick)
    &&& (g.state is Lobby || g.settings.allow_spectators)
}

/// The room after an accepted join: one player appended, everything else
/// untouched.
pub open spec fn after_join(g: GameV, nick: Seq<char>, id: u128) -> GameV {
    GameV {
        players: g.players.push(
            PlayerV { id, nickname: nick, score: 0, role: role_for_join(g) },
        ),
        ..g
    }
}

/// The game a room begins with: the first prompt, the first player's turn,
/// the first round.
pub open spec fn initial_game(s: GameSettingsV) -> OngoingGameV {
    OngoingGameV {
        current_prompt: s.prompt_list[0],
        current_turn_index: 0,
        current_round: 0,
        prompt_cursor: 0,
    }
}

/// What a start request does: refused unless the initiator is the admin;
/// reported as already started unless the room is still in its lobby;
/// otherwise the one-way move from lobby to play.
pub open spec fn spec_start(g: GameV, initiator: u128) -> (GameV, StartGameResponse) {
    if !start_authorized(g, initiator) {
        (g, StartGameResponse::Unauthorized)
    } else if !(g.state is Lobby) {
        (g, StartGameResponse::GameAlreadyStarted)
    } else {
        (
            GameV { state: StateV::Playing(initial_game(g.settings)), ..g },
            StartGameResponse::Started,
        )
    }
}

/// The next position of the sequential, wrapping prompt cursor.
pub open spec fn next_prompt_cursor(s: GameSettingsV, cursor: int) -> int {
    if cursor + 1 < s.prompt_list.len() {
        cursor + 1
    } else {
        0
    }
}

/// What turn advancement does: nothing outside play; otherwise the turn
/// passes to the next non-spectator, the round counter advances when the
/// turn order wraps, and the game finishes once the configured number of
/// rounds has been played. Each new turn takes the next prompt in sequence.
pub open spec fn spec_advance(g: GameV) -> (GameV, AdvanceTurnResponse) {
    match g.state {
        StateV::Playing(og) => {
            let n = non_spectator_count(g.players);
            let c = next_prompt_cursor(g.settings, og.prompt_cursor);
            if og.current_turn_index + 1 < n {
                (
                    GameV {
                        state: StateV::Playing(
                            OngoingGameV {
                                current_prompt: g.settings.prompt_list[c],
                                current_turn_index: og.current_turn_index + 1,
                                current_round: og.current_round,
                                prompt_cursor: c,
                            },
                        ),
                        ..g
                    },
                    AdvanceTurnResponse::Advanced,
                )
            } else if og.current_round + 1 >= g.settings.number_of_rounds {
                (GameV { state: StateV::Finished, ..g }, AdvanceTurnResponse::GameFinished)
            } else {
                (
                    GameV {
                        state: StateV::Playing(
                            OngoingGameV {
                                current_prompt: g.settings.prompt_list[c],
                                current_turn_index: 0,
                                current_round: og.current_round + 1,
                                prompt_cursor: c,
                            },
                        ),
                        ..g
                    },
                    AdvanceTurnResponse::Advanced,
                )
            }
        },
        _ => (g, AdvanceTurnResponse::NotPlaying),
    }
}

impl GameV {
    /// The room's invariant: usable settings, a well-formed room code,
    /// nicknames unique, at most one admin, an admin present once the lobby
    /// has been left, and the turn, round and prompt of an ongoing game in
    /// bounds and consistent with the settings.
    pub open spec fn wf(self) -> bool {
        &&& self.settings.wf()
        &&& self.room_code.len() == 7
        &&& forall|i: int| 0 <= i < self.room_code.len() ==> is_code_char(#[trigger] self.room_code[i])
        &&& forall|i: int, j: int|
            0 <= i < j < self.players.len() ==> (#[trigger] self.players[i]).nickname != (
            #[trigger] self.players[j]).nickname
        &&& forall|i: int, j: int|
            0 <= i < j < self.players.len() ==> !((#[trigger] self.players[i]).role is Admin && (
            #[trigger] self.players[j]).role is Admin)
        &&& !(self.state is Lobby) ==> has_admin(self.players)
        &&& self.state matches StateV::Playing(og) ==> {
            &&& 0 <= og.current_turn_index < non_spectator_count(self.players)
            &&& 0 <= og.current_round < self.settings.number_of_rounds
            &&& 0 <= og.prompt_cursor < self.settings.prompt_list.len()
            &&& og.current_prompt == self.settings.prompt_list[og.prompt_cursor]
        }
    }
}

/// Appending one player moves the non-spectator count by one exactly when
/// the newcomer is not a spectator.
pub proof fn lemma_non_spectator_count_push(players: Seq<PlayerV>, p: PlayerV)
    ensures
        non_spectator_count(players.push(p)) == non_spectator_count(players) + if p.role is Spectator {
            0int
        } else {
            1int
        },
{
    assert(players.push(p).drop_last() =~= players);
}

/// A roster holding any non-spectator has a positive non-spectator count.
pub proof fn lemma_non_spectator_count_at_least_one(players: Seq<PlayerV>, i: int)
    requires
        0 <= i < players.len(),
        !(players[i].role is Spectator),
    ensures
        non_spectator_count(players) >= 1,
    decreases players.len(),
{
    if i < players.len() - 1 {
        lemma_non_spectator_count_at_least_one(players.drop_last(), i);
    }
}

impl Game {
    /// Creates a room from validated settings: a fresh id, a fresh
    /// 7-character alphanumeric room code, an empty roster, and the lobby
    /// state.
    pub fn with_settings(settings: GameSettings) -> (g: Game)
        requires
            settings@.wf(),
        ensures
            g@.wf(),
            g@.state is Lobby,
            g@.players == Seq::<PlayerV>::empty(),
            g@.settings == settings@,
            g@.room_code.len() == 7,
            forall|i: int| 0 <= i < g@.room_code.len() ==> is_code_char(#[trigger] g@.room_code[i]),
    {
        let g = Game {
            id: fresh_id(),
            state: State::Lobby,
            room_code: random_room_code(),
            players: Vec::new(),
            settings,
        };
        proof {
            assert(g@.players =~= Seq::<PlayerV>::empty());
        }
        g
    }

    /// Creates a room with the default settings.
    pub fn new() -> (g: Game)
        ensures
            g@.wf(),
            g@.state is Lobby,
            g@.players == Seq::<PlayerV>::empty(),
            g@.settings == (GameSettingsV {
                prompt_list: crate::settings::default_prompts(),
                time_to_guess_in_seconds: 30u8,
                number_of_rounds: 10u8,
                allow_spectators: true,
            }),
            g@.room_code.len() == 7,
            forall|i: int| 0 <= i < g@.room_code.len() ==> is_code_char(#[trigger] g@.room_code[i]),
    {
        Game::with_settings(GameSettings::default())
    }

    /// Whether some present player already carries `nickname`.
    fn nickname_is_taken(&self, nickname: &String) -> (r: bool)
        ensures
            r == nickname_taken(self@.players, nickname@),
    {
        let mut i: usize = 0;
        while i < self.players.len()
            invariant
                i <= self.players.len(),
                forall|k: int| 0 <= k < i ==> (#[trigger] self@.players[k]).nickname != nickname@,
            decreases self.players.len() - i,
        {
            if self.players[i].nickname == *nickname {
                assert(self@.players[i as int].nickname == nickname@);
                return true;
            }
            i += 1;
        }
        false
    }

    /// Whether `initiator` identifies a present player with the admin role.
    fn is_start_authorized(&self, initiator: u128) -> (r: bool)
        ensures
            r == start_authorized(self@, initiator),
    {
        let mut i: usize = 0;
        while i < self.players.len()
            invariant
                i <= self.players.len(),
                forall|k: int|
                    0 <= k < i ==> !((#[trigger] self@.players[k]).id == initiator
                        && self@.players[k].role is Admin),
            decreases self.players.len() - i,
        {
            if self.players[i].id == initiator && matches!(self.players[i].role, PlayerRole::Admin) {
                assert(self@.players[i as int].id == initiator
                    && self@.players[i as int].role is Admin);
                return true;
            }
            i += 1;
        }
        false
    }

    /// How many present players take turns (everyone but the spectators).
    fn count_non_spectators(&self) -> (n: usize)
        ensures
            n == non_spectator_count(self@.players),
    {
        let mut n: usize = 0;
        let mut i: usize = 0;
        while i < self.players.len()
            invariant
                i <= self.players.len(),
                n <= i,
                n == non_spectator_count(self@.players.take(i as int)),
            decreases self.players.len() - i,
        {
            proof {
                assert(self@.players.take(i + 1).drop_last() =~= self@.players.take(i as int));
                assert(self@.players.take(i + 1).last() == self@.players[i as int]);
            }
            if !matches!(self.players[i].role, PlayerRole::Spectator) {
                n += 1;
            }
            i += 1;
        }
        proof {
            assert(self@.players.take(self.players.len() as int) =~= self@.players);
        }
        n
    }

    /// A join request. Refused when the nickname is taken, and — once the
    /// room has left its lobby — when the room does not allow spectators.
    /// An accepted joiner enters at the end of the roster with a fresh id,
    /// a zero score, and the role the room's state dictates, and the reply
    /// carries that id and role back to the caller.
    pub fn join(&mut self, nickname: String) -> (r: PlayerJoinResponse)
        requires
            old(self)@.wf(),
        ensures
            final(self)@.wf(),
            r is Success <==> join_accepted(old(self)@, nickname@),
            r is NicknameIsTaken <==> nickname_taken(old(self)@.players, nickname@),
            r is SpectatorsNotAllowed <==> (!nickname_taken(old(self)@.players, nickname@)
                && !(old(self)@.state is Lobby) && !old(self)@.settings.allow_spectators),
            r matches PlayerJoinResponse::Success(id, role) ==> role == role_for_join(old(self)@)
                && final(self)@ == after_join(old(self)@, nickname@, id),
            !(r is Success) ==> final(self)@ == old(self)@,
    {
        if self.nickname_is_taken(&nickname) {
            return PlayerJoinResponse::NicknameIsTaken;
        }
        let is_lobby = matches!(self.state, State::Lobby);
        if !is_lobby && !self.settings.allow_spectators {
            return PlayerJoinResponse::SpectatorsNotAllowed;
        }
        let role = if is_lobby {
            if self.players.len() == 0 {
                PlayerRole::Admin
            } else {
                PlayerRole::Member
            }
        } else {
            PlayerRole::Spectator
        };
        let id = fresh_id();
        let ghost old_g = self@;
        self.players.push(Player { id, nickname, score: 0, role });
        proof {
            let p = PlayerV { id, nickname: nickname@, score: 0, role };
            assert(self@.players =~= old_g.players.push(p));
            assert(role == role_for_join(old_g));
            assert(self@ == after_join(old_g, nickname@, id));
            lemma_non_spectator_count_push(old_g.players, p);
            let n = old_g.players.len() as int;
            assert forall|a: int, b: int|
                0 <= a < b < self@.players.len() implies (#[trigger] self@.players[a]).nickname
                != (#[trigger] self@.players[b]).nickname by {
                if b == n {
                    assert(self@.players[a] == old_g.players[a]);
                    assert(!(old_g.players[a].nickname == nickname@));
                } else {
                    assert(self@.players[a] == old_g.players[a]);
                    assert(self@.players[b] == old_g.players[b]);
                }
            }
            assert forall|a: int, b: int|
                0 <= a < b < self@.players.len() implies !((#[trigger] self@.players[a]).role is Admin
                && (#[trigger] self@.players[b]).role is Admin) by {
                if b == n {
                    assert(self@.players[a] == old_g.players[a]);
                } else {
                    assert(self@.players[a] == old_g.players[a]);
                    assert(self@.players[b] == old_g.players[b]);
                }
            }
            if !(old_g.state is Lobby) {
                let w = choose|i: int| 0 <= i < n && old_g.players[i].role is Admin;
                assert(self@.players[w].role is Admin);
            }
        }
        PlayerJoinResponse::Success(id, role)
    }

    /// A start request. Only the admin may start, a room that has left the
    /// lobby reports the game as already started and stays untouched, and a
    /// lobby start begins play at the first prompt, the first player's turn
    /// and round zero.
    pub fn start_game(&mut self, initiator: u128) -> (r: StartGameResponse)
        requires
            old(self)@.wf(),
        ensures
            final(self)@.wf(),
            (final(self)@, r) == spec_start(old(self)@, initiator),
    {
        if !self.is_start_authorized(initiator) {
            return StartGameResponse::Unauthorized;
        }
        if !matches!(self.state, State::Lobby) {
            return StartGameResponse::GameAlreadyStarted;
        }
        proof {
            let i = choose|i: int|
                0 <= i < self@.players.len() && self@.players[i].id == initiator
                    && self@.players[i].role is Admin;
            lemma_non_spectator_count_at_least_one(self@.players, i);
        }
        let prompt = self.settings.prompt_list[0].clone();
        self.state = State::Playing(
            OngoingGame {
                current_prompt: prompt,
                current_turn_index: 0,
                current_round: 0,
                prompt_cursor: 0,
            },
        );
        StartGameResponse::Started
    }

    /// The next position of the sequential, wrapping prompt cursor.
    fn next_cursor(&self, cursor: usize) -> (c: usize)
        requires
            self@.settings.wf(),
            cursor < self@.settings.prompt_list.len(),
        ensures
            c == next_prompt_cursor(self@.settings, cursor as int),
            c < self@.settings.prompt_list.len(),
    {
        if cursor < self.settings.prompt_list.len() - 1 {
            cursor + 1
        } else {
            0
        }
    }

    /// A turn-advancement request. Outside play it reports `NotPlaying` and
    /// changes nothing. During play the turn passes to the next
    /// non-spectator with the next prompt in sequence; when the turn order
    /// wraps, the round advances, and once the configured number of rounds
    /// has been played the game finishes.
    pub fn advance_turn(&mut self) -> (r: AdvanceTurnResponse)
        requires
            old(self)@.wf(),
        ensures
            final(self)@.wf(),
            (final(self)@, r) == spec_advance(old(self)@),
    {
        let turn_index: usize;
        let round: u8;
        let cursor: usize;
        match &self.state {
            State::Playing(og) => {
                turn_index = og.current_turn_index;
                round = og.current_round;
                cursor = og.prompt_cursor;
            },
            _ => {
                return AdvanceTurnResponse::NotPlaying;
            },
        }
        let n = self.count_non_spectators();
        if turn_index + 1 < n {
            let c = self.next_cursor(cursor);
            let prompt = self.settings.prompt_list[c].clone();
            self.state = State::Playing(
                OngoingGame {
                    current_prompt: prompt,
                    current_turn_index: turn_index + 1,
                    current_round: round,
                    prompt_cursor: c,
                },
            );
            AdvanceTurnResponse::Advanced
        } else if round as usize + 1 >= self.settings.number_of_rounds as usize {
            self.state = State::Finished;
            AdvanceTurnResponse::GameFinished
        } else {
            let c = self.next_cursor(cursor);
            let prompt = self.settings.prompt_list[c].clone();
            self.state = State::Playing(
                OngoingGame {
                    current_prompt: prompt,
                    current_turn_index: 0,
                    current_round: round + 1,
                    prompt_cursor: c,
                },
            );
            AdvanceTurnResponse::Advanced
        }
    }
}

} // verus!
