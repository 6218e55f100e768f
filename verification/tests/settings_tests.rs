use game_rooms::settings::{GameSettings, SettingsError};

#[test]
fn default_settings_are_ten_rounds_thirty_seconds_spectators_allowed() {
    let s = GameSettings::default();
    assert_eq!(s.number_of_rounds, 10);
    assert_eq!(s.time_to_guess_in_seconds, 30);
    assert!(s.allow_spectators);
    assert!(!s.prompt_list.is_empty());
    assert_eq!(s.prompt_list[0], "a cat wearing a hat");
}

#[test]
fn empty_prompt_list_is_rejected() {
    let r = GameSettings::new(Vec::new(), 30, 10, true);
    assert!(matches!(r, Err(SettingsError::EmptyPromptList)));
}

#[test]
fn zero_guess_time_is_rejected() {
    let r = GameSettings::new(vec!["a windmill".to_string()], 0, 10, true);
    assert!(matches!(r, Err(SettingsError::ZeroGuessTime)));
}

#[test]
fn zero_rounds_is_rejected() {
    let r = GameSettings::new(vec!["a windmill".to_string()], 30, 0, true);
    assert!(matches!(r, Err(SettingsError::ZeroRounds)));
}

#[test]
fn valid_settings_are_kept_as_given() {
    let s = GameSettings::new(
        vec!["a windmill".to_string(), "a hot air balloon".to_string()],
        45,
        5,
        false,
    )
    .expect("settings are valid");
    assert_eq!(s.prompt_list.len(), 2);
    assert_eq!(s.prompt_list[1], "a hot air balloon");
    assert_eq!(s.time_to_guess_in_seconds, 45);
    assert_eq!(s.number_of_rounds, 5);
    assert!(!s.allow_spectators);
}
