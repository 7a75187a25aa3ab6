use heal_quest::demon_king::{BossAttack, BossFire, BossHit, BOSS_HEALTH};
use heal_quest::enemy::{
    healed_text_markup, EnemyHit, HealEffect, ShootPace, VelocitySample, DEFAULT_ENEMY_HEALTH,
};
use heal_quest::{BodyGroups, Controller, DemonKing, Direction, Enemy, Position};

fn at(x: u32, y: u32) -> Position {
    Position { x_bits: x, y_bits: y }
}

fn still() -> VelocitySample {
    VelocitySample { x_is_zero: true, x_whole: 0, y_is_zero: true, y_whole: 0 }
}

#[test]
fn boss_heals_on_fifteenth_hit() {
    let mut boss = DemonKing::new();
    let mut c = Controller::new();
    c.set_in_game(true);
    c.set_speedrun_timer(true);
    assert_eq!(BOSS_HEALTH, 15);
    for i in 1..15u16 {
        assert_eq!(boss.hit(&mut c), BossHit::Hurt);
        assert_eq!(boss.health(), 15 - i);
        assert!(!boss.is_healed());
    }
    assert!(c.is_in_game());
    assert!(c.is_speedrun_timer_on());
    assert_eq!(boss.hit(&mut c), BossHit::Healed { long_fade: false });
    assert!(boss.is_healed());
    assert_eq!(boss.health(), 0);
    assert!(!c.is_in_game());
    assert!(!c.is_speedrun_timer_on());
}

#[test]
fn boss_attack_roll_table() {
    let mut boss = DemonKing::new();
    assert_eq!(boss.attack(0), BossAttack::Barrage);
    assert_eq!(boss.attack(3), BossAttack::Barrage);
    assert_eq!(boss.attack(1), BossAttack::Summon);
    assert_eq!(boss.attack(2), BossAttack::Kick);
    assert_eq!(boss.attack(4), BossAttack::Kick);
}

#[test]
fn barrage_fires_five_bullets() {
    let mut boss = DemonKing::new();
    assert_eq!(boss.attack(0), BossAttack::Barrage);
    for _ in 0..4 {
        assert_eq!(boss.fire_bullet(), BossFire::NextBullet);
    }
    assert_eq!(boss.fire_bullet(), BossFire::Teleport);
    assert_eq!(boss.attack(3), BossAttack::Barrage);
    assert_eq!(boss.fire_bullet(), BossFire::NextBullet);
}

#[test]
fn healed_boss_is_idle() {
    let mut boss = DemonKing::new();
    let mut c = Controller::new();
    for _ in 0..15 {
        boss.hit(&mut c);
    }
    assert_eq!(boss.attack(0), BossAttack::Idle);
    assert_eq!(boss.attack(1), BossAttack::Idle);
    assert_eq!(boss.fire_bullet(), BossFire::Idle);
    assert!(!boss.tele_out());
}

#[test]
fn boss_ending_starts_once_after_the_fight() {
    let mut boss = DemonKing::new();
    assert!(!boss.process(true, false));
    boss.end_game();
    assert!(!boss.process(false, false));
    assert!(boss.process(false, true));
    assert!(!boss.process(true, true));
    assert!(boss.on_animation_finished("End".to_string()));
    assert!(!boss.on_animation_finished("Fade".to_string()));
}

#[test]
fn enemy_heals_after_its_health_runs_out() {
    let mut e = Enemy::new();
    let mut c = Controller::new();
    assert_eq!(DEFAULT_ENEMY_HEALTH, 2);
    let plan = e.ready(&"res://Scenes/Overworld/Overworld_2.tscn".to_string());
    assert_eq!(plan.shoot_pace, Some(ShootPace::Normal));
    assert!(plan.follow_path);
    assert!(!plan.ground_attack_timer);
    assert_eq!(e.hit(&mut c, "o2--e".to_string(), at(1, 2)), EnemyHit::Hurt);
    assert!(!e.is_healed());
    assert!(!c.enemy_is_healed("o2--e".to_string()));
    assert_eq!(e.hit(&mut c, "o2--e".to_string(), at(3, 4)), EnemyHit::Healed(HealEffect::Recorded));
    assert!(e.is_healed());
    assert_eq!(c.enemies_healed_count(), 1);
    assert_eq!(c.get_healed_enemy_position("o2--e".to_string()), at(3, 4));
    assert!(!e.shoots_on_timer());
    assert!(!e.ground_attacks_on_timer());
    assert!(!e.follows_player());
}

#[test]
fn boss_room_enemy_vanishes_unrecorded() {
    let mut e = Enemy::with_properties(1, true, false, false, true);
    let mut c = Controller::new();
    let plan = e.ready(&"res://Scenes/Castle/Castle_Boss.tscn".to_string());
    assert_eq!(plan.shoot_pace, None);
    assert!(plan.ground_attack_timer);
    assert!(plan.ground_tint);
    assert_eq!(e.hit(&mut c, "b--e".to_string(), at(0, 0)), EnemyHit::Healed(HealEffect::Vanish));
    assert_eq!(c.enemies_healed_count(), 0);
    assert!(!c.enemy_is_healed("b--e".to_string()));
}

#[test]
fn fast_shooter_plan() {
    let mut e = Enemy::with_properties(2, false, true, true, true);
    let plan = e.ready(&"x".to_string());
    assert_eq!(plan.shoot_pace, Some(ShootPace::Fast));
    assert!(!plan.ground_attack_timer);
    assert!(!plan.follow_path);
}

#[test]
fn healed_enemy_is_restored_where_it_stood() {
    let mut c = Controller::new();
    c.add_enemy_healed_info("r--e".to_string(), at(7, 9));
    let mut e = Enemy::new();
    assert_eq!(e.restore(&c, "r--e".to_string()), Some(at(7, 9)));
    assert!(e.is_healed());
    let mut other = Enemy::new();
    assert_eq!(other.restore(&c, "r--f".to_string()), None);
    assert!(!other.is_healed());
}

#[test]
fn heal_on_room_start_is_quiet() {
    let mut e = Enemy::new();
    let mut c = Controller::new();
    assert_eq!(e.heal(&mut c, true, "x".to_string(), at(0, 0)), HealEffect::Quiet);
    assert!(e.is_healed());
    assert_eq!(c.enemies_healed_count(), 0);
}

#[test]
fn enemy_faces_where_it_walks() {
    let mut e = Enemy::new();
    assert_eq!(e.face(), Direction::Down);
    let up = VelocitySample { x_is_zero: true, x_whole: 0, y_is_zero: false, y_whole: -1 };
    assert_eq!(e.animate(up), "up_walk");
    assert_eq!(e.face(), Direction::Up);
    let left = VelocitySample { x_is_zero: false, x_whole: -1, y_is_zero: true, y_whole: 0 };
    assert_eq!(e.animate(left), "left_walk");
    let diagonal = VelocitySample { x_is_zero: false, x_whole: 0, y_is_zero: false, y_whole: 0 };
    assert_eq!(e.animate(diagonal), "left_walk");
    assert_eq!(e.animate(still()), "left");
    let right = VelocitySample { x_is_zero: false, x_whole: 1, y_is_zero: true, y_whole: 0 };
    assert_eq!(e.animate(right), "right_walk");
    let down = VelocitySample { x_is_zero: true, x_whole: 0, y_is_zero: false, y_whole: 1 };
    assert_eq!(e.animate(down), "down_walk");
}

#[test]
fn non_following_enemy_does_not_walk() {
    let mut e = Enemy::with_properties(2, false, true, false, false);
    let up = VelocitySample { x_is_zero: true, x_whole: 0, y_is_zero: false, y_whole: -1 };
    assert_eq!(e.animate(up), "up");
}

#[test]
fn healed_enemy_plays_healed_animation() {
    let mut e = Enemy::new();
    let mut c = Controller::new();
    e.heal(&mut c, true, "x".to_string(), at(0, 0));
    let up = VelocitySample { x_is_zero: true, x_whole: 0, y_is_zero: false, y_whole: -1 };
    assert_eq!(e.animate(up), "healed");
    assert_eq!(e.face(), Direction::Down);
}

#[test]
fn healed_enemy_text_shows_near_player() {
    let mut e = Enemy::new();
    let mut c = Controller::new();
    assert!(!e.on_area_text_body_entered(BodyGroups::player_only()));
    assert_eq!(e.next_visible_characters(3), 3);
    e.heal(&mut c, true, "x".to_string(), at(0, 0));
    assert!(!e.on_area_text_body_entered(BodyGroups::none()));
    assert!(e.on_area_text_body_entered(BodyGroups::player_only()));
    assert_eq!(e.next_visible_characters(3), 4);
    assert!(e.on_area_text_body_exited(BodyGroups::player_only()));
    assert_eq!(e.next_visible_characters(4), 4);
    assert_eq!(healed_text_markup(&"Thanks!".to_string()), "[wave amp=30 freq=4][center]Thanks!");
}

#[test]
fn direction_codes() {
    assert_eq!(Direction::from_u8(0), Direction::Up);
    assert_eq!(Direction::from_u8(1), Direction::Down);
    assert_eq!(Direction::from_u8(2), Direction::Left);
    assert_eq!(Direction::from_u8(3), Direction::Right);
    assert_eq!(Direction::from_u8(9), Direction::Up);
    for d in [Direction::Up, Direction::Down, Direction::Left, Direction::Right] {
        assert_eq!(Direction::from_u8(d.to_u8()), d);
    }
}
