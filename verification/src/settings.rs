//! Game configuration: the prompt source, timing, round count and
//! spectator policy of one room, fixed when the room is created.

use vstd::prelude::*;
use vstd::string::StringExecFns;

verus! {

/// Why a settings value was rejected at construction time.
#[derive(Clone, Copy, Debug, PartialEq, Eq, Structural)]
pub enum SettingsError {
    EmptyPromptList,
    ZeroGuessTime,
    ZeroRounds,
}

/// Configuration of one room. Validated at construction: the prompt list is
/// non-empty and the numeric settings are positive, so that starting a game
/// never finds an unusable configuration.
pub struct GameSettings {
    pub prompt_list: Vec<String>,
    pub time_to_guess_in_seconds: u8,
    pub number_of_rounds: u8,
    pub allow_spectators: bool,
}

/// Mathematical model of a settings value.
pub struct GameSettingsV {
    pub prompt_list: Seq<Seq<char>>,
    pub time_to_guess_in_seconds: u8,
    pub number_of_rounds: u8,
    pub allow_spectators: bool,
}

impl View for GameSettings {
    type V = GameSettingsV;

    open spec fn view(&self) -> GameSettingsV {
        GameSettingsV {
            prompt_list: self.prompt_list@.map_values(|s: String| s@),
            time_to_guess_in_seconds: self.time_to_guess_in_seconds,
            number_of_rounds: self.number_of_rounds,
            allow_spectators: self.allow_spectators,
        }
    }
}

impl GameSettingsV {
    /// A settings value is usable when the prompt list is non-empty and the
    /// timer and round count are positive.
    pub open spec fn wf(self) -> bool {
        &&& self.prompt_list.len() > 0
        &&& self.time_to_guess_in_seconds > 0
        &&& self.number_of_rounds > 0
    }
}

/// The bundled prompt list used by default settings.
pub open spec fn default_prompts() -> Seq<Seq<char>> {
    seq![
        "a cat wearing a hat"@,
        "a castle on a cloud"@,
        "a robot walking a dog"@,
        "a pirate ship in a bottle"@,
        "a snowman at the beach"@,
        "a dragon eating spaghetti"@,
    ]
}

/// Builds the bundled default prompt list.
pub fn default_prompt_list() -> (r: Vec<String>)
    ensures
        r@.map_values(|s: String| s@) == default_prompts(),
{
    let mut v: Vec<String> = Vec::new();
    v.push(String::from_str("a cat wearing a hat"));
    v.push(String::from_str("a castle on a cloud"));
    v.push(String::from_str("a robot walking a dog"));
    v.push(String::from_str("a pirate ship in a bottle"));
    v.push(String::from_str("a snowman at the beach"));
    v.push(String::from_str("a dragon eating spaghetti"));
    proof {
        assert(v@.map_values(|s: String| s@) =~= default_prompts());
    }
    v
}

impl GameSettings {
    /// Validated constructor: fails closed on an empty prompt list or a zero
    /// timer or round count, and otherwise returns exactly the given values.
    pub fn new(
        prompt_list: Vec<String>,
        time_to_guess_in_seconds: u8,
        number_of_rounds: u8,
        allow_spectators: bool,
    ) -> (r: Result<GameSettings, SettingsError>)
        ensures
            r is Ok <==> (prompt_list@.len() > 0 && time_to_guess_in_seconds > 0
                && number_of_rounds > 0),
            r == Err::<GameSettings, SettingsError>(SettingsError::EmptyPromptList)
                <==> prompt_list@.len() == 0,
            r == Err::<GameSettings, SettingsError>(SettingsError::ZeroGuessTime)
                <==> (prompt_list@.len() > 0 && time_to_guess_in_seconds == 0),
            r == Err::<GameSettings, SettingsError>(SettingsError::ZeroRounds)
                <==> (prompt_list@.len() > 0 && time_to_guess_in_seconds > 0
                    && number_of_rounds == 0),
            r matches Ok(s) ==> s@ == (GameSettingsV {
                prompt_list: prompt_list@.map_values(|s: String| s@),
                time_to_guess_in_seconds,
                number_of_rounds,
                allow_spectators,
            }) && s@.wf(),
    {
        if prompt_list.len() == 0 {
            Err(SettingsError::EmptyPromptList)
        } else if time_to_guess_in_seconds == 0 {
            Err(SettingsError::ZeroGuessTime)
        } else if number_of_rounds == 0 {
            Err(SettingsError::ZeroRounds)
        } else {
            Ok(GameSettings {
                prompt_list,
                time_to_guess_in_seconds,
                number_of_rounds,
                allow_spectators,
            })
        }
    }
}

impl Default for GameSettings {
    /// Default configuration: the bundled prompt list, a 30-second guess
    /// timer, 10 rounds, spectators allowed.
    fn default() -> (r: GameSettings)
        ensures
            r@ == (GameSettingsV {
                prompt_list: default_prompts(),
                time_to_guess_in_seconds: 30u8,
                number_of_rounds: 10u8,
                allow_spectators: true,
            }),
            r@.wf(),
    {
        GameSettings {
            prompt_list: default_prompt_list(),
            time_to_guess_in_seconds: 30,
            number_of_rounds: 10,
            allow_spectators: true,
        }
    }
}

} // verus!
