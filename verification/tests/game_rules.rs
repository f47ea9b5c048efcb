use bird_flap::menu::{
    button_system, menu_action, menu_setup, set_checkbox_style, sound_setting_button,
    sound_settings_menu_setup, ButtonColor, Interaction, MarkColor, MenuButtonAction,
    MenuOutcome, MenuState, OutlineColor,
};
use bird_flap::audio::{AudioEnabled, PlayPitch, VolumeLevel, VolumeSetting};
use bird_flap::player::{border_patrol, check_collisions, control};
use bird_flap::text::decimal_string;
use bird_flap::world::{
    check_pending_playing, enter_playing, game_over, on_score_point, score_update, show_score,
    GameState, Score, ScorePoint,
};

#[test]
fn decimal_strings_match_to_string() {
    for n in [0u32, 1, 9, 10, 11, 99, 100, 4096, 65535, 1_000_000, u32::MAX] {
        assert_eq!(decimal_string(n), n.to_string());
    }
}

#[test]
fn score_board_counts_points() {
    let mut score = Score(17);
    assert_eq!(show_score(&mut score), "0");
    assert_eq!(score, Score(0));
    for _ in 0..12 {
        on_score_point(&mut score, ScorePoint);
    }
    assert_eq!(score, Score(12));
    assert_eq!(score_update(&score), "12");
    assert_eq!(Score::new(), Score(0));
}

#[test]
fn game_over_announces_final_score() {
    assert_eq!(game_over(&Score(7)), "Your final score is 7");
    assert_eq!(game_over(&Score(0)), "Your final score is 0");
    assert_eq!(game_over(&Score(305)), "Your final score is 305");
}

#[test]
fn restart_only_after_game_over() {
    assert_eq!(enter_playing(true, 0, GameState::GameOver), Some(GameState::Playing));
    assert_eq!(enter_playing(false, 2, GameState::GameOver), Some(GameState::Playing));
    assert_eq!(enter_playing(false, 0, GameState::GameOver), None);
    assert_eq!(enter_playing(true, 1, GameState::Playing), None);
    assert_eq!(enter_playing(true, 0, GameState::MainMenu), None);
    assert_eq!(GameState::initial(), GameState::MainMenu);
}

#[test]
fn mute_button_live_while_pending_or_playing() {
    assert!(check_pending_playing(GameState::Pending));
    assert!(check_pending_playing(GameState::Playing));
    assert!(!check_pending_playing(GameState::MainMenu));
    assert!(!check_pending_playing(GameState::GameOver));
}

#[test]
fn menu_buttons_act_on_press() {
    let none = MenuOutcome { exit: false, game: None, menu: None };
    assert_eq!(menu_action(Interaction::Hovered, MenuButtonAction::Quit), none);
    assert_eq!(menu_action(Interaction::Pressed, MenuButtonAction::Quit), MenuOutcome { exit: true, game: None, menu: None });
    assert_eq!(
        menu_action(Interaction::Pressed, MenuButtonAction::Play),
        MenuOutcome { exit: false, game: Some(GameState::Pending), menu: Some(MenuState::Disabled) }
    );
    assert_eq!(
        menu_action(Interaction::Pressed, MenuButtonAction::SettingsSound),
        MenuOutcome { exit: false, game: None, menu: Some(MenuState::SettingsSound) }
    );
    assert_eq!(menu_action(Interaction::Pressed, MenuButtonAction::JumpMode), none);
    assert_eq!(
        menu_action(Interaction::Pressed, MenuButtonAction::BackToMainMenu),
        MenuOutcome { exit: false, game: Some(GameState::MainMenu), menu: Some(MenuState::Main) }
    );
    assert_eq!(menu_setup(), MenuState::Main);
    assert_eq!(MenuState::initial(), MenuState::Disabled);
}

#[test]
fn button_colours() {
    assert_eq!(button_system(Interaction::Pressed, false), ButtonColor::Pressed);
    assert_eq!(button_system(Interaction::Pressed, true), ButtonColor::Pressed);
    assert_eq!(button_system(Interaction::Idle, true), ButtonColor::Pressed);
    assert_eq!(button_system(Interaction::Hovered, true), ButtonColor::HoveredPressed);
    assert_eq!(button_system(Interaction::Hovered, false), ButtonColor::Hovered);
    assert_eq!(button_system(Interaction::Idle, false), ButtonColor::Normal);
}

#[test]
fn checkbox_style_follows_state() {
    let mut border = OutlineColor::Outline;
    let mut mark = MarkColor::Clear;
    let mut one_shot = false;
    set_checkbox_style(true, true, &mut border, &mut mark, &mut one_shot);
    assert_eq!((border, mark, one_shot), (OutlineColor::OutlineLight, MarkColor::Fill, true));
    set_checkbox_style(false, false, &mut border, &mut mark, &mut one_shot);
    assert_eq!((border, mark, one_shot), (OutlineColor::Outline, MarkColor::Clear, false));
}

#[test]
fn volume_row_selects_current_volume() {
    let row = sound_settings_menu_setup(VolumeLevel(4));
    assert_eq!(row.len(), 8);
    for (i, b) in row.iter().enumerate() {
        assert_eq!(b.setting, VolumeSetting(VolumeLevel(i as u8)));
        assert_eq!(b.selected, i == 4);
    }
}

#[test]
fn volume_press_selects_and_chimes() {
    let mut volume = VolumeLevel(4);
    let mut enabled = AudioEnabled(false);
    let r = sound_setting_button(Interaction::Pressed, VolumeSetting(VolumeLevel(6)), &mut volume, &mut enabled);
    assert_eq!(r, Some(PlayPitch));
    assert_eq!(volume, VolumeLevel(6));
    assert_eq!(enabled, AudioEnabled(true));
    let row = sound_settings_menu_setup(volume);
    assert!(row[6].selected && row.iter().filter(|b| b.selected).count() == 1);
    // pressing the selected one again changes nothing
    let mut enabled = AudioEnabled(false);
    let r = sound_setting_button(Interaction::Pressed, VolumeSetting(VolumeLevel(6)), &mut volume, &mut enabled);
    assert_eq!(r, None);
    assert_eq!(enabled, AudioEnabled(false));
    let r = sound_setting_button(Interaction::Hovered, VolumeSetting(VolumeLevel(1)), &mut volume, &mut enabled);
    assert_eq!(r, None);
    assert_eq!(volume, VolumeLevel(6));
}

#[test]
fn flap_on_space_or_touch() {
    assert!(control(true, 0));
    assert!(control(false, 1));
    assert!(!control(false, 0));
}

#[test]
fn falling_below_floor_ends_round() {
    assert_eq!(border_patrol(&vec![false, true]), Some(GameState::GameOver));
    assert_eq!(border_patrol(&vec![false]), None);
    assert_eq!(border_patrol(&vec![]), None);
}

#[test]
fn collisions_report_pipe_hits_and_gates() {
    let r = check_collisions(&vec![false, false, true], &vec![true, false, true]);
    assert!(r.game_over);
    assert_eq!(r.scored_gates, vec![0, 2]);
    let r = check_collisions(&vec![false, false], &vec![]);
    assert!(!r.game_over);
    assert!(r.scored_gates.is_empty());
}
