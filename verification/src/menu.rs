//! The menus: what their buttons do, how the buttons are coloured, the
//! one-shot jump-mode checkbox, and the volume buttons of the sound menu.
use vstd::prelude::*;
use crate::world::GameState;
use crate::audio::{AudioEnabled, PlayPitch, VolumeLevel, VolumeSetting, VOLUME_LEVEL_COUNT};

verus! {

/// Which menu screen is shown.
#[derive(Clone, Copy, Debug, PartialEq, Eq, Structural, Hash)]
pub enum MenuState {
    Main,
    SettingsSound,
    /// No menu (the phase the menus start in).
    Disabled,
}

impl MenuState {
    /// The menu phase at start-up.
    pub fn initial() -> (s: MenuState)
        ensures
            s == MenuState::Disabled,
    {
        MenuState::Disabled
    }
}

/// What a menu button does.
#[derive(Clone, Copy, Debug, PartialEq, Eq, Structural)]
pub enum MenuButtonAction {
    Play,
    SettingsSound,
    JumpMode,
    BackToMainMenu,
    Quit,
}

/// The kinds of game there are.
#[derive(Clone, Copy, Debug, PartialEq, Eq, Structural)]
pub enum GameMode {
    Adventure,
    Endless,
}

/// The state of a button under the pointer.
#[derive(Clone, Copy, Debug, PartialEq, Eq, Structural)]
pub enum Interaction {
    Pressed,
    Hovered,
    /// Neither pressed nor hovered.
    Idle,
}

/// The background colour of a menu button.
#[derive(Clone, Copy, Debug, PartialEq, Eq, Structural)]
pub enum ButtonColor {
    Normal,
    Hovered,
    HoveredPressed,
    Pressed,
}

/// On entering the title menu, the main menu screen is shown.
pub fn menu_setup() -> (s: MenuState)
    ensures
        s == MenuState::Main,
{
    MenuState::Main
}

/// The colour of a button: pressed, or selected and not hovered, shows the
/// pressed colour; selected and hovered the hovered-pressed colour;
/// hovered the hovered colour; otherwise the normal colour.
pub fn button_system(interaction: Interaction, selected: bool) -> (c: ButtonColor)
    ensures
        c == match interaction {
            Interaction::Pressed => ButtonColor::Pressed,
            Interaction::Hovered => if selected { ButtonColor::HoveredPressed } else { ButtonColor::Hovered },
            Interaction::Idle => if selected { ButtonColor::Pressed } else { ButtonColor::Normal },
        },
{
    match (interaction, selected) {
        (Interaction::Pressed, _) | (Interaction::Idle, true) => ButtonColor::Pressed,
        (Interaction::Hovered, true) => ButtonColor::HoveredPressed,
        (Interaction::Hovered, false) => ButtonColor::Hovered,
        (Interaction::Idle, false) => ButtonColor::Normal,
    }
}

/// What a menu button asks for: leaving the program, a new game phase, a new
/// menu screen.
#[derive(Clone, Copy, Debug, PartialEq, Eq, Structural)]
pub struct MenuOutcome {
    pub exit: bool,
    pub game: Option<GameState>,
    pub menu: Option<MenuState>,
}

/// The effect of a menu button whose interaction changed; only a press
/// does anything.
pub fn menu_action(interaction: Interaction, action: MenuButtonAction) -> (r: MenuOutcome)
    ensures
        interaction != Interaction::Pressed ==> r == (MenuOutcome { exit: false, game: None, menu: None }),
        interaction == Interaction::Pressed ==> r == match action {
            MenuButtonAction::Quit => MenuOutcome { exit: true, game: None, menu: None },
            MenuButtonAction::Play => MenuOutcome {
                exit: false,
                game: Some(GameState::Pending),
                menu: Some(MenuState::Disabled),
            },
            MenuButtonAction::SettingsSound => MenuOutcome {
                exit: false,
                game: None,
                menu: Some(MenuState::SettingsSound),
            },
            MenuButtonAction::JumpMode => MenuOutcome { exit: false, game: None, menu: None },
            MenuButtonAction::BackToMainMenu => MenuOutcome {
                exit: false,
                game: Some(GameState::MainMenu),
                menu: Some(MenuState::Main),
            },
        },
{
    let mut r = MenuOutcome { exit: false, game: None, menu: None };
    if interaction == Interaction::Pressed {
        match action {
            MenuButtonAction::Quit => {
                r.exit = true;
            },
            MenuButtonAction::Play => {
                r.game = Some(GameState::Pending);
                r.menu = Some(MenuState::Disabled);
            },
            MenuButtonAction::SettingsSound => {
                r.menu = Some(MenuState::SettingsSound);
            },
            MenuButtonAction::JumpMode => {},
            MenuButtonAction::BackToMainMenu => {
                r.game = Some(GameState::MainMenu);
                r.menu = Some(MenuState::Main);
            },
        }
    }
    r
}

/// The outline colour of the checkbox.
#[derive(Clone, Copy, Debug, PartialEq, Eq, Structural)]
pub enum OutlineColor {
    Outline,
    /// The outline colour, lightened, while hovered.
    OutlineLight,
}

/// The colour of the checkbox's mark.
#[derive(Clone, Copy, Debug, PartialEq, Eq, Structural)]
pub enum MarkColor {
    Fill,
    Clear,
}

/// Restyles the jump-mode checkbox and records its state: a lighter outline
/// while hovered, a filled mark while checked, and the flag set to whether
/// it is checked.
pub fn set_checkbox_style(
    hovering: bool,
    checked: bool,
    border_color: &mut OutlineColor,
    mark_bg: &mut MarkColor,
    checked_state: &mut bool,
)
    ensures
        *final(border_color) == if hovering { OutlineColor::OutlineLight } else { OutlineColor::Outline },
        *final(mark_bg) == if checked { MarkColor::Fill } else { MarkColor::Clear },
        *final(checked_state) == checked,
{
    let color = if hovering { OutlineColor::OutlineLight } else { OutlineColor::Outline };
    *border_color = color;
    let mark_color = if checked { MarkColor::Fill } else { MarkColor::Clear };
    if *mark_bg != mark_color {
        *mark_bg = mark_color;
    }
    *checked_state = checked;
}

/// Whether the volume button of step `step` is the selected one, when the
/// global volume is `global_volume`.
pub open spec fn volume_selected(global_volume: VolumeLevel, step: int) -> bool {
    global_volume.0 == step
}

/// A volume button of the sound menu: the volume it sets, and whether it is
/// the selected one.
#[derive(Clone, Copy, Debug, PartialEq, Eq, Structural)]
pub struct VolumeButton {
    pub setting: VolumeSetting,
    pub selected: bool,
}

/// The row of volume buttons of the sound menu, one per step of the scale
/// from silent to full, the one of the current global volume selected.
pub fn sound_settings_menu_setup(global_volume: VolumeLevel) -> (buttons: Vec<VolumeButton>)
    ensures
        buttons.len() == VOLUME_LEVEL_COUNT,
        forall|i: int| 0 <= i < buttons.len() ==> {
            &&& (#[trigger] buttons[i]).setting == VolumeSetting(VolumeLevel(i as u8))
            &&& buttons[i].selected == volume_selected(global_volume, i)
        },
{
    let mut buttons: Vec<VolumeButton> = Vec::new();
    let mut step: u8 = 0;
    while step < VOLUME_LEVEL_COUNT
        invariant
            step <= VOLUME_LEVEL_COUNT,
            buttons.len() == step,
            forall|i: int| 0 <= i < buttons.len() ==> {
                &&& (#[trigger] buttons[i]).setting == VolumeSetting(VolumeLevel(i as u8))
                &&& buttons[i].selected == (global_volume.0 == i)
            },
        decreases VOLUME_LEVEL_COUNT - step,
    {
        buttons.push(VolumeButton {
            setting: VolumeSetting(VolumeLevel(step)),
            selected: global_volume == VolumeLevel(step),
        });
        step = step + 1;
    }
    buttons
}

/// The global volume, whether sound is on, and whether a chime is asked
/// for, after a volume button's interaction changed.
pub open spec fn sound_setting_effect(
    interaction: Interaction,
    setting: VolumeSetting,
    global_volume: VolumeLevel,
    enabled: bool,
) -> (VolumeLevel, bool, bool) {
    if interaction == Interaction::Pressed && global_volume != setting.0 {
        (setting.0, true, true)
    } else {
        (global_volume, enabled, false)
    }
}

/// A volume button whose interaction changed. Pressing a button whose
/// volume differs from the global volume selects it: the global volume takes
/// its value, sound is turned on, and a chime is asked for (the caller moves
/// the selection mark to this button and repaints the previous one).
pub fn sound_setting_button(
    interaction: Interaction,
    setting: VolumeSetting,
    global_volume: &mut VolumeLevel,
    audio_enabled: &mut AudioEnabled,
) -> (chime: Option<PlayPitch>)
    ensures
        (*final(global_volume), final(audio_enabled).0, chime is Some)
            == sound_setting_effect(interaction, setting, *old(global_volume), old(audio_enabled).0),
        interaction != Interaction::Pressed || *old(global_volume) == setting.0 ==> {
            &&& *final(global_volume) == *old(global_volume)
            &&& final(audio_enabled).0 == old(audio_enabled).0
            &&& chime is None
        },
        interaction == Interaction::Pressed && *old(global_volume) != setting.0 ==> {
            &&& *final(global_volume) == setting.0
            &&& final(audio_enabled).0
            &&& chime == Some(PlayPitch)
        },
{
    if interaction == Interaction::Pressed && *global_volume != setting.0 {
        *global_volume = setting.0;
        audio_enabled.0 = true;
        Some(PlayPitch)
    } else {
        None
    }
}

/// Only a press on a volume button other than the current volume acts: any
/// other interaction, or a press on the current volume, leaves the volume and
/// whether sound is on as they were and asks for no chime; such a press sets
/// the volume to the button's, turns sound on (never off), and chimes.
pub proof fn lemma_only_a_press_picks_a_volume(
    interaction: Interaction,
    setting: VolumeSetting,
    global_volume: VolumeLevel,
    enabled: bool,
)
    ensures
        ({
            let (vol, on, chime) = sound_setting_effect(interaction, setting, global_volume, enabled);
            &&& interaction != Interaction::Pressed ==> vol == global_volume && on == enabled && !chime
            &&& global_volume == setting.0 ==> vol == global_volume && on == enabled && !chime
            &&& interaction == Interaction::Pressed && global_volume != setting.0 ==> vol == setting.0 && on && chime
            &&& enabled ==> on
        }),
{
}

/// In the sound menu exactly one volume button is selected, and pressing
/// another one moves the selection to it: after `sound_setting_button`
/// on the button of step `pressed`, the row selects that button and no
/// other, sound is on, and a chime is asked for.
pub proof fn lemma_selection_follows_press(global_volume: VolumeLevel, pressed: u8, enabled: bool)
    requires
        global_volume.wf(),
        pressed < VOLUME_LEVEL_COUNT,
        pressed != global_volume.0,
    ensures
        volume_selected(global_volume, global_volume.0 as int),
        forall|j: int| #[trigger] volume_selected(global_volume, j) ==> j == global_volume.0,
        ({
            let (after, on, chime) = sound_setting_effect(
                Interaction::Pressed,
                VolumeSetting(VolumeLevel(pressed)),
                global_volume,
                enabled,
            );
            &&& on && chime
            &&& after.wf()
            &&& forall|j: int| 0 <= j < VOLUME_LEVEL_COUNT ==> (#[trigger] volume_selected(after, j) <==> j == pressed)
        }),
{
}

} // verus!
