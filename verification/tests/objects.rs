use heal_quest::boss_bullet::BOSS_BULLET_DAMAGE;
use heal_quest::bullet::BULLET_DAMAGE;
use heal_quest::fountain::{PurifyEffect, FOUNTAIN_HEAL};
use heal_quest::ground_attack::GROUND_ATTACK_DAMAGE;
use heal_quest::loading_zone::Placement;
use heal_quest::pause_menu::PauseExit;
use heal_quest::player_bullet::{Launch, Strikes, TargetState};
use heal_quest::room::{count_enemies, MusicCue};
use heal_quest::title::{speedrun_button_label, TitleStep};
use heal_quest::{
    BodyGroups, BossBullet, Bullet, Controller, Direction, Fountain, GroundAttack, LoadingZone,
    PauseMenu, PlayerBullet, Position, Room, Title, WorldText,
};

fn fresh_targets() -> TargetState {
    TargetState { enemy_healed: false, boss_healed: false, fountain_purified: false }
}

#[test]
fn player_bullet_flies_and_heals() {
    let b = PlayerBullet::new(false);
    assert_eq!(b.ready(), Launch::Fly);
    let enemy = BodyGroups { enemy: true, ..BodyGroups::none() };
    let s = b.on_player_bullet_body_entered(enemy, fresh_targets());
    assert_eq!(s, Strikes { enemy: true, boss: false, fountain: false });
    let healed = TargetState { enemy_healed: true, ..fresh_targets() };
    let s = b.on_player_bullet_body_entered(enemy, healed);
    assert_eq!(s, Strikes { enemy: false, boss: false, fountain: false });
    let boss = BodyGroups { enemy_boss: true, ..BodyGroups::none() };
    assert!(b.on_player_bullet_body_entered(boss, fresh_targets()).boss);
    let fountain = BodyGroups { fountain: true, ..BodyGroups::none() };
    assert!(b.on_player_bullet_body_entered(fountain, fresh_targets()).fountain);
}

#[test]
fn spent_player_bullet_heals_nothing() {
    let mut b = PlayerBullet::new(false);
    b.on_timer_stop_hitting_timeout();
    assert!(!b.can_hit());
    let all = BodyGroups { enemy: true, enemy_boss: true, fountain: true, ..BodyGroups::none() };
    let s = b.on_player_bullet_body_entered(all, fresh_targets());
    assert_eq!(s, Strikes { enemy: false, boss: false, fountain: false });
}

#[test]
fn resting_bullet_pick_up() {
    let mut b = PlayerBullet::new(true);
    assert_eq!(b.ready(), Launch::Rest);
    assert!(!b.on_area_pick_up_body_entered(BodyGroups::player_only()));
    assert!(b.on_timer_pick_up_timeout());
    assert!(!b.can_pick_up());
    assert!(!b.can_hit());
    let mut b2 = PlayerBullet::new(true);
    assert!(!b2.on_timer_pick_up_timeout());
    assert!(b2.can_pick_up());
    assert!(!b2.on_area_pick_up_body_entered(BodyGroups::none()));
    assert!(b2.on_area_pick_up_body_entered(BodyGroups::player_only()));
    assert!(!b2.on_area_pick_up_body_entered(BodyGroups::player_only()));
}

#[test]
fn player_leaving_before_timer_does_not_pick_up() {
    let mut b = PlayerBullet::new(true);
    b.on_area_pick_up_body_entered(BodyGroups::player_only());
    b.on_area_pick_up_body_exited(BodyGroups::player_only());
    assert!(!b.on_timer_pick_up_timeout());
    assert!(b.can_pick_up());
}

#[test]
fn boss_bullet_hurts_until_spent() {
    let mut b = BossBullet::new(false);
    assert_eq!(b.ready(), Launch::Fly);
    assert_eq!(BOSS_BULLET_DAMAGE, 2);
    assert_eq!(b.on_boss_bullet_body_entered(BodyGroups::player_only(), false), Some(2));
    assert_eq!(b.on_boss_bullet_body_entered(BodyGroups::player_only(), true), None);
    assert_eq!(b.on_boss_bullet_body_entered(BodyGroups::none(), false), None);
    b.on_timer_pick_up_timeout();
    b.on_timer_stop_hitting_timeout();
    assert_eq!(b.on_boss_bullet_body_entered(BodyGroups::player_only(), false), None);
    assert_eq!(BossBullet::new(true).ready(), Launch::Rest);
}

#[test]
fn enemy_bullet_collisions() {
    let b = Bullet::new();
    let c = b.collision(BodyGroups::player_only(), false);
    assert_eq!(c.damage, Some(BULLET_DAMAGE));
    assert!(c.delete);
    let c = b.collision(BodyGroups::player_only(), true);
    assert_eq!(c.damage, None);
    assert!(c.delete);
    let c = b.collision(BodyGroups { bullet: true, ..BodyGroups::none() }, false);
    assert_eq!(c.damage, None);
    assert!(!c.delete);
    assert!(b.collision(BodyGroups::none(), false).delete);
}

#[test]
fn ground_attack_hurts_standing_player() {
    let mut g = GroundAttack::new();
    assert_eq!(g.attack(), None);
    g.on_ground_attack_body_entered(BodyGroups { enemy: true, ..BodyGroups::none() });
    assert_eq!(g.attack(), None);
    g.on_ground_attack_body_entered(BodyGroups::player_only());
    assert_eq!(g.attack(), Some(GROUND_ATTACK_DAMAGE));
    assert_eq!(GROUND_ATTACK_DAMAGE, 2);
    g.on_ground_attack_body_exited(BodyGroups::player_only());
    assert_eq!(g.attack(), None);
}

#[test]
fn fountain_purify_and_restore() {
    let mut c = Controller::new();
    let mut f = Fountain::new();
    assert!(!f.ready(&mut c, "o3--fountain".to_string()));
    assert!(!f.is_purified());
    assert_eq!(
        f.purify(&mut c, false, "o3--fountain".to_string()),
        PurifyEffect::Purified { heal_player: FOUNTAIN_HEAL }
    );
    assert_eq!(FOUNTAIN_HEAL, 5);
    assert!(f.is_purified());
    assert!(c.fountain_is_purified("o3--fountain".to_string()));
    let mut again = Fountain::new();
    assert!(again.ready(&mut c, "o3--fountain".to_string()));
    assert!(again.is_purified());
    assert_eq!(again.purify(&mut c, true, "o3--fountain".to_string()), PurifyEffect::Restored);
}

#[test]
fn loading_zone_sends_player_to_opposite_edge() {
    let expected = [
        (0u8, Direction::Up, Placement::SetY(160)),
        (1, Direction::Down, Placement::SetY(20)),
        (2, Direction::Left, Placement::SetX(300)),
        (3, Direction::Right, Placement::SetX(20)),
        (7, Direction::Up, Placement::SetY(160)),
    ];
    for (code, face, placement) in expected {
        let z = LoadingZone::new("res://Scenes/Next.tscn".to_string(), code);
        let e = z.on_loading_zone_body_entered(BodyGroups::player_only(), false).unwrap();
        assert_eq!(e.face, face);
        assert_eq!(e.placement, placement);
        assert_eq!(e.target_scene, "res://Scenes/Next.tscn");
    }
    let z = LoadingZone::new("s".to_string(), 0);
    assert!(z.on_loading_zone_body_entered(BodyGroups::player_only(), true).is_none());
    assert!(z.on_loading_zone_body_entered(BodyGroups::none(), false).is_none());
    assert_eq!(z.direction(), 0);
}

#[test]
fn room_counts_enemies_and_clears() {
    let mut c = Controller::new();
    let mut r = Room::new();
    let flags = vec![true, false, true, true, false];
    assert_eq!(count_enemies(&flags), 3);
    let start = r.ready(&flags, &c, &"res://Scenes/Overworld/Overworld_2.tscn".to_string(), true);
    assert!(!start.already_cleared);
    assert!(!start.fountains_cleared);
    assert_eq!(start.music, MusicCue::Keep);
    assert_eq!(r.enemy_count(), 3);
    let room = "res://Scenes/Overworld/Overworld_2.tscn";
    assert!(!r.clear_room(&mut c, room.to_string()));
    assert!(!r.clear_room(&mut c, room.to_string()));
    assert!(!c.is_room_cleared(room.to_string()));
    assert!(r.clear_room(&mut c, room.to_string()));
    assert!(c.is_room_cleared(room.to_string()));
    assert_eq!(r.enemies_healed(), 3);
    let mut again = Room::new();
    let start = again.ready(&flags, &c, &room.to_string(), true);
    assert!(start.already_cleared);
}

#[test]
fn room_music_cues() {
    let c = Controller::new();
    let mut r = Room::new();
    let none: Vec<bool> = Vec::new();
    let s = r.ready(&none, &c, &"res://Scenes/Castle/Castle_1.tscn".to_string(), true);
    assert_eq!(s.music, MusicCue::Stop);
    let s = r.ready(&none, &c, &"res://Scenes/Overworld/Overworld_4.tscn".to_string(), false);
    assert_eq!(s.music, MusicCue::Play);
    let s = r.ready(&none, &c, &"res://Scenes/Overworld/Overworld_4.tscn".to_string(), true);
    assert_eq!(s.music, MusicCue::Keep);
}

#[test]
fn room_sees_all_fountains() {
    let mut c = Controller::new();
    c.purify_debug_fountains();
    let mut r = Room::new();
    let s = r.ready(&vec![], &c, &"x".to_string(), false);
    assert!(s.fountains_cleared);
}

#[test]
fn pause_menu_exits() {
    let mut c = Controller::new();
    c.set_in_game(true);
    let m = PauseMenu::new();
    assert!(m.process(true));
    assert!(!m.process(false));
    assert_eq!(m.on_animation_player_animation_finished(&"Other".to_string(), &mut c), PauseExit::Stay);
    assert!(c.is_in_game());
    assert_eq!(m.on_animation_player_animation_finished(&"Fadeout".to_string(), &mut c), PauseExit::ToTitle);
    assert!(!c.is_in_game());
    let mut q = PauseMenu::new();
    q.on_button_exit_pressed();
    c.set_in_game(true);
    assert_eq!(q.on_animation_player_animation_finished(&"Fadeout".to_string(), &mut c), PauseExit::Quit);
    assert!(c.is_in_game());
}

#[test]
fn title_speedrun_button() {
    let mut c = Controller::new();
    let t = Title::new();
    assert_eq!(t.ready(&c), "Speedrun Timer - Off");
    assert_eq!(t.on_button_speedrun_timer_pressed(&mut c), "Speedrun Timer - On");
    assert!(c.is_speedrun_timer_on());
    assert_eq!(t.on_button_speedrun_timer_pressed(&mut c), "Speedrun Timer - Off");
    assert!(!c.is_speedrun_timer_on());
    assert_eq!(speedrun_button_label(true), "Speedrun Timer - On");
}

#[test]
fn title_starts_fresh_game() {
    let mut c = Controller::new();
    c.add_room_cleared("r".to_string());
    c.add_enemy_healed();
    c.set_speedrun_timer(true);
    let mut t = Title::new();
    assert_eq!(t.on_animation_player_animation_finished(&"Fadeout".to_string(), &mut c), TitleStep::StartGame);
    assert!(c.is_in_game());
    assert!(!c.is_room_cleared("r".to_string()));
    assert_eq!(c.enemies_healed_count(), 0);
    assert!(c.is_speedrun_timer_on());
}

#[test]
fn title_credits_cycle() {
    let mut c = Controller::new();
    let mut t = Title::new();
    assert!(!t.process(true));
    assert_eq!(t.on_animation_player_animation_finished(&"Fadeout Keep Music".to_string(), &mut c), TitleStep::PlayFadeInCredits);
    assert_eq!(t.on_animation_player_animation_finished(&"Fadein Credits".to_string(), &mut c), TitleStep::CreditsShown);
    assert!(!t.process(false));
    assert!(t.process(true));
    assert!(!t.process(true));
    assert_eq!(t.on_animation_player_animation_finished(&"Fadeout Credits".to_string(), &mut c), TitleStep::PlayFadeIn);
    assert_eq!(t.on_animation_player_animation_finished(&"Fadein".to_string(), &mut c), TitleStep::EnableButtons);
    assert_eq!(t.on_animation_player_animation_finished(&"Unknown".to_string(), &mut c), TitleStep::Nothing);
}

#[test]
fn title_quit() {
    let mut c = Controller::new();
    let mut t = Title::new();
    t.on_button_exit_pressed();
    assert_eq!(t.on_animation_player_animation_finished(&"Fadeout".to_string(), &mut c), TitleStep::Quit);
    assert!(!c.is_in_game());
}

#[test]
fn world_text_types_out() {
    let mut w = WorldText::new("Welcome".to_string());
    assert_eq!(w.markup(), "[center][wave amp=20 freq=3.5]Welcome");
    assert_eq!(w.next_visible_characters(0), 0);
    w.set_display(true);
    assert!(w.is_displaying());
    assert_eq!(w.next_visible_characters(0), 1);
    w.set_display(false);
    assert_eq!(w.next_visible_characters(5), 5);
}

#[test]
fn positions_are_exact() {
    let p = Position { x_bits: 160.0f32.to_bits(), y_bits: 120.0f32.to_bits() };
    assert_eq!(f32::from_bits(p.x_bits), 160.0);
    assert_eq!(f32::from_bits(p.y_bits), 120.0);
}
