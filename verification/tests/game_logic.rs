use house_build::Alignment;
use house_build::BUTTON_HOVERED_WIDTH_PX;
use house_build::BUTTON_WIDTH_PX;
use house_build::ButtonAction;
use house_build::ButtonInteraction;
use house_build::FlowDirection;
use house_build::GameState;
use house_build::MenuCommand;
use house_build::MenuEntry;
use house_build::Rgb;
use house_build::button_response;
use house_build::menu_command;
use house_build::next_state;
use house_build::pause_menu_layout;
use house_build::toggle;

#[test]
fn default_state_is_game() {
    assert_eq!(GameState::default(), GameState::Game);
}

#[test]
fn escape_pauses_the_game() {
    assert_eq!(next_state(true, GameState::Game), Some(GameState::PauseMenu));
}

#[test]
fn escape_resumes_the_game() {
    assert_eq!(next_state(true, GameState::PauseMenu), Some(GameState::Game));
}

#[test]
fn no_key_keeps_the_state() {
    assert_eq!(next_state(false, GameState::Game), None);
    assert_eq!(next_state(false, GameState::PauseMenu), None);
}

#[test]
fn toggling_twice_returns_to_the_start() {
    for s in [GameState::Game, GameState::PauseMenu] {
        assert_eq!(toggle(toggle(s)), s);
    }
}

#[test]
fn toggling_always_changes_the_state() {
    for s in [GameState::Game, GameState::PauseMenu] {
        assert_ne!(toggle(s), s);
    }
}

#[test]
fn pressing_the_button_quits() {
    assert_eq!(button_response(ButtonInteraction::Pressed), ButtonAction::Quit);
}

#[test]
fn hovering_widens_the_button() {
    assert_eq!(
        button_response(ButtonInteraction::Hovered),
        ButtonAction::SetWidthPx(BUTTON_HOVERED_WIDTH_PX)
    );
    assert_eq!(button_response(ButtonInteraction::Hovered), ButtonAction::SetWidthPx(170));
}

#[test]
fn an_idle_button_rests_at_its_width() {
    assert_eq!(
        button_response(ButtonInteraction::Idle),
        ButtonAction::SetWidthPx(BUTTON_WIDTH_PX)
    );
    assert_eq!(button_response(ButtonInteraction::Idle), ButtonAction::SetWidthPx(150));
}

#[test]
fn the_hovered_width_is_wider() {
    assert!(BUTTON_HOVERED_WIDTH_PX > BUTTON_WIDTH_PX);
}

#[test]
fn entering_the_pause_menu_spawns_it() {
    assert_eq!(menu_command(GameState::Game, GameState::PauseMenu), MenuCommand::Spawn);
}

#[test]
fn leaving_the_pause_menu_despawns_it() {
    assert_eq!(menu_command(GameState::PauseMenu, GameState::Game), MenuCommand::Despawn);
}

#[test]
fn an_unchanged_state_keeps_the_screen() {
    assert_eq!(menu_command(GameState::Game, GameState::Game), MenuCommand::Keep);
    assert_eq!(menu_command(GameState::PauseMenu, GameState::PauseMenu), MenuCommand::Keep);
}

#[test]
fn the_pause_menu_layout_holds_the_menu() {
    let m = pause_menu_layout();
    assert_eq!(m.font_path, "fonts/RobotoSlab.ttf");
    assert_eq!(m.root_direction, FlowDirection::Column);
    assert_eq!(m.root_align_items, Alignment::Center);
    assert_eq!(m.root_width_percent, 100);
    assert_eq!(m.root_height_percent, 100);
    assert_eq!(m.title_text, "House Build Game");
    assert_eq!(m.title_font_px, 64);
    assert_eq!(m.title_top_percent, 20);
    assert_eq!(m.button_label, "Quit");
    assert_eq!(m.button_font_px, 48);
    assert_eq!(m.button_top_percent, 30);
    assert_eq!(m.button_width_px, 150);
    assert_eq!(m.button_hovered_width_px, 170);
    assert_eq!(m.button_height_px, 65);
    assert_eq!(m.button_border_px, 5);
}

#[test]
fn the_menu_shows_the_title_over_the_button() {
    let m = pause_menu_layout();
    assert_eq!(m.children_top_down, vec![MenuEntry::Title, MenuEntry::QuitButton]);
}

#[test]
fn the_menu_colors_are_the_games() {
    let m = pause_menu_layout();
    assert_eq!(m.title_color, Rgb { r: 255, g: 255, b: 255 });
    assert_eq!(m.title_background, Rgb { r: 255, g: 0, b: 0 });
    assert_eq!(m.button_border_color, Rgb { r: 0, g: 0, b: 0 });
    assert_eq!(m.button_label_color, Rgb { r: 0, g: 0, b: 0 });
}

#[test]
fn the_menu_texts_are_centered() {
    let m = pause_menu_layout();
    assert_eq!(m.title_justify, Alignment::Center);
    assert_eq!(m.button_justify_content, Alignment::Center);
    assert_eq!(m.button_align_items, Alignment::Center);
}
