use antlife::game::{level_template, Stage};
use antlife::geometry::{LineSegment, Point};
use antlife::infestation::{lerp_ant, DirtyObj};
use antlife::level::{
    ant_kind, ant_sprites, dirtiness_update_due, is_finished, manage_level, nudge, step_dirtiness,
    Difficulty, LevelState, Outcome, Pointer, ResourceName, MEDIUM_DURATION,
};
use antlife::noise::{noise, NOISE_SCALE};

fn seg(x1: i32, y1: i32, x2: i32, y2: i32) -> LineSegment {
    LineSegment::new(Point::new(x1, y1), Point::new(x2, y2))
}

fn keyboard(dirtiness: u8) -> DirtyObj {
    DirtyObj::new(dirtiness, seg(250, 404, 590, 404), seg(278, 361, 575, 361), 700, 128)
}

fn idle() -> Pointer {
    Pointer { position: Point::new(0, 0), held: false, pressed: false }
}

fn hold(x: i32, y: i32) -> Pointer {
    Pointer { position: Point::new(x, y), held: true, pressed: false }
}

fn press(x: i32, y: i32) -> Pointer {
    Pointer { position: Point::new(x, y), held: true, pressed: true }
}

#[test]
fn noise_wraps_around_the_table() {
    assert_eq!(noise(0), 0);
    assert_eq!(noise(1), 375_670_670);
    assert_eq!(noise(101), 375_670_670);
    assert_eq!(noise(99), 421_123_060);
    assert!((0..100).all(|i| (noise(i) as u64) < NOISE_SCALE));
}

#[test]
fn dirty_obj_distance_is_between_midpoints_in_half_pixels() {
    let o = keyboard(64);
    assert_eq!(o.distance.x, 13);
    assert_eq!(o.distance.y, -86);
}

#[test]
fn lerp_ant_exact_positions() {
    let o = keyboard(255);
    let s = Point::new(300, 404);
    let e = Point::new(320, 361);
    assert_eq!(lerp_ant(1000, &o, s, e, 2, false), Some((313, 377)));
    assert_eq!(lerp_ant(1000, &o, s, e, 2, true), Some((310, 378)));
    assert_eq!(lerp_ant(1000, &o, s, e, 5, true), Some((302, 401)));
    assert_eq!(lerp_ant(1000, &o, s, e, 5, false), Some((301, 401)));
}

#[test]
fn lerp_ant_culls_on_clean_objects() {
    let s = Point::new(300, 404);
    let e = Point::new(320, 361);
    // noise 0 at seed 0 hides the creature on any object
    assert_eq!(lerp_ant(1000, &keyboard(255), s, e, 0, false), None);
    // noise 0.907 at seed 2: shown from dirtiness 77 up
    assert_eq!(lerp_ant(0, &keyboard(76), s, e, 2, false), None);
    assert!(lerp_ant(0, &keyboard(77), s, e, 2, false).is_some());
}

#[test]
fn lerp_ant_cull_depends_on_seed_mod_100_and_dirtiness() {
    let a = keyboard(120);
    let b = DirtyObj::new(120, seg(0, 0, 5, 5), seg(9, 9, 1, 1), 3, 250);
    for seed in 0..100usize {
        let first = lerp_ant(7, &a, Point::new(1, 2), Point::new(3, 4), seed, true).is_none();
        let second = lerp_ant(99_999, &b, Point::new(50, 60), Point::new(0, 0), seed + 300, false)
            .is_none();
        assert_eq!(first, second);
    }
}

#[test]
fn lerp_ant_sawtooth_repeats_every_cycle() {
    let o = keyboard(255);
    let s = Point::new(300, 404);
    let e = Point::new(320, 361);
    assert_eq!(lerp_ant(1000, &o, s, e, 2, true), lerp_ant(1500, &o, s, e, 2, true));
}

#[test]
fn nudge_saturates_at_both_ends() {
    assert_eq!(nudge(0, false), 0);
    assert_eq!(nudge(255, true), 255);
    assert_eq!(nudge(10, true), 11);
    assert_eq!(nudge(10, false), 9);
}

#[test]
fn medium_drift_at_zero_stays_zero() {
    assert_eq!(step_dirtiness(Difficulty::Medium, 1, 7, 0, false), 0);
    assert_eq!(step_dirtiness(Difficulty::Easy, 0, 7, 255, false), 255);
}

#[test]
fn drift_cadence_follows_repellants() {
    assert!(dirtiness_update_due(Difficulty::Easy, 0, 14));
    assert!(!dirtiness_update_due(Difficulty::Easy, 0, 15));
    // 7 + 3 * 10 / 10 = 10
    assert!(dirtiness_update_due(Difficulty::Easy, 10, 20));
    assert!(!dirtiness_update_due(Difficulty::Easy, 10, 14));
    // 7 + 3 * 4 / 10 = 8
    assert!(dirtiness_update_due(Difficulty::Easy, 4, 16));
    assert!(dirtiness_update_due(Difficulty::Medium, 50, 21));
    assert!(!dirtiness_update_due(Difficulty::Medium, 50, 20));
}

#[test]
fn completion_conditions() {
    assert!(is_finished(Difficulty::Easy, 201));
    assert!(!is_finished(Difficulty::Easy, 200));
    assert!(!is_finished(Difficulty::Easy, 0));
    assert!(is_finished(Difficulty::Medium, 201));
    assert!(is_finished(Difficulty::Medium, 39));
    assert!(!is_finished(Difficulty::Medium, 40));
    assert!(!is_finished(Difficulty::Medium, 200));
}

#[test]
fn easy_holding_one_object_for_200_ticks() {
    let mut level = level_template(Stage::A1);
    let mut duration = None;
    for tick in 0..200usize {
        let r = manage_level(&mut level, tick, &mut duration, hold(200, 400), 0);
        assert_eq!(r, None);
    }
    assert_eq!(level.objects[0].dirtiness, 0);
    assert_eq!(level.objects[1].dirtiness, 64 + 29);
    assert_eq!(level.objects[2].dirtiness, 64 + 29);
    assert_eq!(level.money, 0);
    assert_eq!(duration, None);
}

#[test]
fn easy_idle_level_is_lost_when_all_objects_overrun() {
    let mut level = level_template(Stage::A1);
    let mut duration = None;
    let mut tick: usize = 0;
    let outcome = loop {
        if let Some(o) = manage_level(&mut level, tick, &mut duration, idle(), 0) {
            break o;
        }
        tick += 1;
    };
    assert_eq!(outcome, Outcome::Lost);
    // the 137th drift, on tick 136 * 7, takes every object from 64 to 201
    assert_eq!(tick, 952);
    assert!(level.objects.iter().all(|o| o.dirtiness == 201));
    // three objects earn 0.1 each per idle tick
    assert_eq!(level.money, 953 * 300);
}

#[test]
fn easy_level_is_won_when_money_passes_goal() {
    let mut level = level_template(Stage::A1);
    level.money = 999_700;
    let mut duration = None;
    assert_eq!(manage_level(&mut level, 1, &mut duration, idle(), 0), None);
    assert_eq!(level.money, 1_000_000);
    let mut again = level_template(Stage::A1);
    again.money = 999_701;
    assert_eq!(manage_level(&mut again, 1, &mut duration, idle(), 0), Some(Outcome::Won));
}

#[test]
fn medium_click_pays_half_plus_bonus() {
    // bonus of 2 ln(1) = 0 and of exp(1) = 2.718, in thousandths
    for bonus in [0u64, 2_718] {
        let mut level = level_template(Stage::B1);
        let mut duration = None;
        let r = manage_level(&mut level, 1, &mut duration, hold(368, 150), bonus);
        assert_eq!(r, None);
        assert_eq!(level.money, 500 + bonus);
        assert_eq!(level.objects[0].dirtiness, 164);
        assert_eq!(level.objects[1].dirtiness, 162);
        assert_eq!(level.objects[2].dirtiness, 163);
        let r = manage_level(&mut level, 2, &mut duration, hold(368, 150), bonus);
        assert_eq!(r, None);
        assert_eq!(level.money, 2 * (500 + bonus));
        assert_eq!(duration, Some(2));
    }
}

#[test]
fn medium_idle_earns_nothing_and_drifts_down() {
    let mut level = level_template(Stage::B1);
    let mut duration = None;
    manage_level(&mut level, 7, &mut duration, idle(), 0);
    assert_eq!(level.money, 0);
    assert_eq!(level.objects[0].dirtiness, 162);
    assert_eq!(level.objects[1].dirtiness, 161);
}

#[test]
fn medium_shift_is_lost_one_tick_past_its_length() {
    let mut level = level_template(Stage::B1);
    level.objects.clear();
    let mut duration = None;
    for tick in 1..=MEDIUM_DURATION {
        assert_eq!(manage_level(&mut level, tick, &mut duration, idle(), 0), None);
    }
    assert_eq!(duration, Some(MEDIUM_DURATION));
    let r = manage_level(&mut level, MEDIUM_DURATION + 1, &mut duration, idle(), 0);
    assert_eq!(r, Some(Outcome::Lost));
    assert_eq!(duration, Some(MEDIUM_DURATION + 1));
}

#[test]
fn medium_level_lost_when_an_object_is_too_clean() {
    let mut level = level_template(Stage::B1);
    level.objects[2].dirtiness = 40;
    let mut duration = None;
    assert_eq!(manage_level(&mut level, 7, &mut duration, idle(), 0), Some(Outcome::Lost));
}

#[test]
fn easy_level_clears_shift_clock() {
    let mut level = level_template(Stage::A1);
    let mut duration = Some(50);
    manage_level(&mut level, 1, &mut duration, idle(), 0);
    assert_eq!(duration, None);
}

#[test]
fn buying_an_upgrade() {
    let mut level = level_template(Stage::A1);
    level.money = 5_000;
    let mut duration = None;
    manage_level(&mut level, 1, &mut duration, press(800, 20), 0);
    assert_eq!(level.repellants, 1);
    assert_eq!(level.money, 1_000);
    // not enough money left
    manage_level(&mut level, 2, &mut duration, press(800, 20), 0);
    assert_eq!(level.repellants, 1);
    assert_eq!(level.money, 1_000);
}

#[test]
fn buying_needs_a_press_on_the_button() {
    let mut level = level_template(Stage::A1);
    level.money = 5_000;
    let mut duration = None;
    manage_level(&mut level, 1, &mut duration, hold(800, 20), 0);
    assert_eq!(level.repellants, 0);
    manage_level(&mut level, 2, &mut duration, press(700, 20), 0);
    assert_eq!(level.repellants, 0);
    assert_eq!(level.money, 5_000);
}

#[test]
fn ant_kind_by_difficulty_and_dirtiness() {
    assert_eq!(ant_kind(Difficulty::Easy, 0, 100, 2), (ResourceName::Ant, 4, 4));
    // noise at 28 is 0.999
    assert_eq!(ant_kind(Difficulty::Easy, 0, 181, 28), (ResourceName::AntCrit, 4, 4));
    assert_eq!(ant_kind(Difficulty::Easy, 0, 180, 28), (ResourceName::Ant, 4, 4));
    assert_eq!(ant_kind(Difficulty::Medium, 1, 181, 28), (ResourceName::AntSHCrit, 1, 0));
    assert_eq!(ant_kind(Difficulty::Medium, 1, 100, 28), (ResourceName::AntSH, 1, 0));
    assert_eq!(ant_kind(Difficulty::Medium, 2, 181, 28), (ResourceName::AntSVCrit, 0, 1));
    assert_eq!(ant_kind(Difficulty::Medium, 0, 181, 1), (ResourceName::AntSV, 0, 1));
}

#[test]
fn ant_sprites_follow_lerp_ant_per_sample() {
    let level = level_template(Stage::A1);
    let sprites = ant_sprites(&level, 1000);
    let mut expected = Vec::new();
    for (i, o) in level.objects.iter().enumerate() {
        let starts = o.start.points_on(o.amount);
        let ends = o.end.points_on(o.amount);
        for k in 0..starts.len().min(ends.len()) {
            if let Some((x, y)) = lerp_ant(1000, o, starts[k], ends[k], k, true) {
                expected.push((i, x - 4, y - 4));
            }
        }
    }
    let got: Vec<(usize, i64, i64)> = sprites.iter().map(|s| (s.object, s.x, s.y)).collect();
    assert_eq!(got, expected);
    assert!(!sprites.is_empty());
    assert!(sprites.iter().all(|s| s.image == ResourceName::Ant));
}

#[test]
fn clean_level_shows_fewer_ants() {
    let clean = level_template(Stage::A1);
    let mut dirty = level_template(Stage::A1);
    for o in dirty.objects.iter_mut() {
        o.dirtiness = 150;
    }
    let mut dirtier = level_template(Stage::A1);
    for o in dirtier.objects.iter_mut() {
        o.dirtiness = 250;
    }
    let a = ant_sprites(&clean, 0).len();
    let b = ant_sprites(&dirty, 0).len();
    let c = ant_sprites(&dirtier, 0).len();
    assert!(a < b && b < c);
}

#[test]
fn custom_level_with_no_objects_easy_is_lost() {
    let mut level = LevelState {
        objects: Vec::new(),
        difficulty: Difficulty::Easy,
        scene: ResourceName::ImageA1,
        money: 0,
        money_goal: 10,
        repellants: 0,
        repellant_name: "Spray".to_string(),
        repellant_price: 5,
    };
    let mut duration = None;
    assert_eq!(manage_level(&mut level, 0, &mut duration, idle(), 0), Some(Outcome::Lost));
}
