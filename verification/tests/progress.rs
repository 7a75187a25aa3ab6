use heal_quest::controller::{obscures_ui, UiPanel, FOUNTAIN_COUNT};
use heal_quest::hud::{decimal_text, healed_label};
use heal_quest::naming::{object_id, text_is, with_prefix};
use heal_quest::{BodyGroups, Controller, Position};

fn pos(x: f32, y: f32) -> Position {
    Position { x_bits: x.to_bits(), y_bits: y.to_bits() }
}

#[test]
fn new_controller_is_empty() {
    let c = Controller::new();
    assert_eq!(c.enemies_healed_count(), 0);
    assert!(!c.is_speedrun_timer_on());
    assert!(!c.is_in_game());
    assert!(!c.enemy_is_healed("a--b".to_string()));
    assert!(!c.fountain_is_purified("f".to_string()));
    assert!(!c.is_room_cleared("r".to_string()));
    assert!(!c.all_fountains_purified());
}

#[test]
fn healed_enemy_position_reads_back() {
    let mut c = Controller::new();
    c.add_enemy_healed_info("room--enemy1".to_string(), pos(10.5, -3.25));
    assert!(c.enemy_is_healed("room--enemy1".to_string()));
    assert!(!c.enemy_is_healed("room--enemy2".to_string()));
    let p = c.get_healed_enemy_position("room--enemy1".to_string());
    assert_eq!(f32::from_bits(p.x_bits), 10.5);
    assert_eq!(f32::from_bits(p.y_bits), -3.25);
}

#[test]
fn healed_enemy_record_is_replaced_not_duplicated() {
    let mut c = Controller::new();
    c.add_enemy_healed_info("e1".to_string(), pos(1.0, 1.0));
    c.add_enemy_healed_info("e2".to_string(), pos(2.0, 2.0));
    c.add_enemy_healed_info("e1".to_string(), pos(3.0, 4.0));
    assert_eq!(c.get_healed_enemy_position("e1".to_string()), pos(3.0, 4.0));
    assert_eq!(c.get_healed_enemy_position("e2".to_string()), pos(2.0, 2.0));
}

#[test]
fn healed_counter_counts() {
    let mut c = Controller::new();
    c.add_enemy_healed();
    c.add_enemy_healed();
    c.add_enemy_healed();
    assert_eq!(c.enemies_healed_count(), 3);
}

#[test]
fn fountains_count_distinct_names() {
    let mut c = Controller::new();
    for name in ["a", "b", "a", "c", "d"] {
        c.add_fountain_purified_info(name.to_string());
    }
    assert!(c.fountain_is_purified("a".to_string()));
    assert!(!c.all_fountains_purified());
    c.add_fountain_purified_info("e".to_string());
    assert!(c.all_fountains_purified());
    assert_eq!(FOUNTAIN_COUNT, 5);
}

#[test]
fn debug_key_purifies_all_fountains() {
    let mut c = Controller::new();
    c.purify_debug_fountains();
    for name in ["0", "1", "2", "3", "4"] {
        assert!(c.fountain_is_purified(name.to_string()));
    }
    assert!(c.all_fountains_purified());
}

#[test]
fn rooms_stay_cleared() {
    let mut c = Controller::new();
    c.add_room_cleared("res://Scenes/Overworld/Overworld_1.tscn".to_string());
    c.add_room_cleared("res://Scenes/Overworld/Overworld_2.tscn".to_string());
    assert!(c.is_room_cleared("res://Scenes/Overworld/Overworld_1.tscn".to_string()));
    assert!(c.is_room_cleared("res://Scenes/Overworld/Overworld_2.tscn".to_string()));
    assert!(!c.is_room_cleared("res://Scenes/Overworld/Overworld_3.tscn".to_string()));
}

#[test]
fn reset_forgets_progress_keeps_flags() {
    let mut c = Controller::new();
    c.set_speedrun_timer(true);
    c.set_in_game(true);
    c.add_enemy_healed();
    c.add_enemy_healed_info("e".to_string(), pos(0.0, 0.0));
    c.add_fountain_purified_info("f".to_string());
    c.add_room_cleared("r".to_string());
    c.reset();
    assert_eq!(c.enemies_healed_count(), 0);
    assert!(!c.enemy_is_healed("e".to_string()));
    assert!(!c.fountain_is_purified("f".to_string()));
    assert!(!c.is_room_cleared("r".to_string()));
    assert!(c.is_speedrun_timer_on());
    assert!(c.is_in_game());
}

#[test]
fn stop_timer_turns_timer_off() {
    let mut c = Controller::new();
    c.set_speedrun_timer(true);
    assert!(c.timer_panel_follows_show());
    c.stop_timer();
    assert!(!c.is_speedrun_timer_on());
    assert!(!c.timer_panel_follows_show());
}

#[test]
fn pause_menu_opens_only_in_game_and_unpaused() {
    let mut c = Controller::new();
    assert!(!c.should_open_pause_menu(true, false));
    c.set_in_game(true);
    assert!(c.should_open_pause_menu(true, false));
    assert!(!c.should_open_pause_menu(true, true));
    assert!(!c.should_open_pause_menu(false, false));
}

#[test]
fn panels_fade_while_bodies_inside() {
    let mut c = Controller::new();
    let enemy = BodyGroups { enemy: true, ..BodyGroups::none() };
    let wall = BodyGroups::none();
    c.on_ui_area_body_entered(UiPanel::Status, wall);
    assert!(!c.is_panel_faded(UiPanel::Status));
    c.on_ui_area_body_entered(UiPanel::Status, enemy);
    assert!(c.is_panel_faded(UiPanel::Status));
    assert!(!c.is_panel_faded(UiPanel::Timer));
    c.on_ui_area_body_exited(UiPanel::Status, enemy);
    assert!(!c.is_panel_faded(UiPanel::Status));
    c.on_ui_area_body_entered(UiPanel::Timer, BodyGroups::player_only());
    assert!(c.is_panel_faded(UiPanel::Timer));
}

#[test]
fn which_bodies_obscure_the_display() {
    assert!(obscures_ui(BodyGroups::player_only()));
    assert!(obscures_ui(BodyGroups { enemy_boss: true, ..BodyGroups::none() }));
    assert!(obscures_ui(BodyGroups { player_bullet: true, ..BodyGroups::none() }));
    assert!(!obscures_ui(BodyGroups { bullet: true, ..BodyGroups::none() }));
    assert!(!obscures_ui(BodyGroups { fountain: true, ..BodyGroups::none() }));
}

#[test]
fn object_identity_joins_scene_and_path() {
    let id = object_id(
        "res://Scenes/Overworld/Overworld_1.tscn".to_string(),
        "/root/Overworld_1/Enemy".to_string(),
    );
    assert_eq!(id, "res://Scenes/Overworld/Overworld_1.tscn--/root/Overworld_1/Enemy");
}

#[test]
fn text_helpers() {
    assert!(text_is(&"End".to_string(), "End"));
    assert!(!text_is(&"Ends".to_string(), "End"));
    assert_eq!(with_prefix("[x]", &"hi".to_string()), "[x]hi");
}

#[test]
fn decimal_and_healed_label() {
    assert_eq!(decimal_text(0), "0");
    assert_eq!(decimal_text(7), "7");
    assert_eq!(decimal_text(10), "10");
    assert_eq!(decimal_text(305), "305");
    assert_eq!(decimal_text(65535), "65535");
    assert_eq!(healed_label(12), "Healed: 12");
    assert_eq!(healed_label(0), "Healed: 0");
}
