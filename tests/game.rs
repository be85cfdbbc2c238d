use antlife::game::{
    level_template, story_center, story_intro, Dialog, GameState, Screen, Stage, StoryIter,
};
use antlife::geometry::Point;
use antlife::level::{Difficulty, Outcome, Pointer, ResourceName};

fn idle() -> Pointer {
    Pointer { position: Point::new(0, 0), held: false, pressed: false }
}

fn click() -> Pointer {
    Pointer { position: Point::new(0, 0), held: true, pressed: true }
}

fn stage_of(game: &GameState) -> Option<Stage> {
    match &game.screen {
        Screen::Stage(s, _) => Some(*s),
        _ => None,
    }
}

#[test]
fn stage_names() {
    assert_eq!(Stage::A1.name(), "A1");
    assert_eq!(Stage::B1.name(), "B2");
}

#[test]
fn templates_hold_the_level_data() {
    let a = level_template(Stage::A1);
    assert_eq!(a.difficulty, Difficulty::Easy);
    assert_eq!(a.scene, ResourceName::ImageA1);
    assert_eq!(a.objects.len(), 3);
    assert!(a.objects.iter().all(|o| o.dirtiness == 64));
    assert_eq!(a.objects[1].amount, 700);
    assert_eq!(a.objects[1].chance_bidir, 128);
    assert_eq!((a.money, a.money_goal, a.repellants, a.repellant_price), (0, 1_000_000, 0, 4_000));
    assert_eq!(a.repellant_name, "Repellant");
    let b = level_template(Stage::B1);
    assert_eq!(b.difficulty, Difficulty::Medium);
    let d: Vec<u8> = b.objects.iter().map(|o| o.dirtiness).collect();
    assert_eq!(d, vec![163, 162, 163]);
    assert_eq!((b.money, b.money_goal, b.repellants, b.repellant_price), (0, 10_000_000, 1, 100_000));
    assert_eq!(b.repellant_name, "Drones");
}

#[test]
fn story_iter_peek_and_next() {
    let mut story = story_intro();
    assert_eq!(story.pages.len(), 11);
    let first = story.peek().unwrap().lines.clone();
    assert_eq!(first[0], "the year is 2027. you had big expectations of this year back in 2024.");
    let taken = story.next().unwrap();
    assert_eq!(taken.lines, first);
    assert_eq!(story.pages.len(), 10);
    let mut empty = StoryIter { pages: Vec::new() };
    assert!(empty.peek().is_none());
    assert!(empty.next().is_none());
}

#[test]
fn center_story_pages() {
    let story = story_center();
    assert_eq!(story.pages.len(), 14);
    assert!(story.pages.iter().all(|p| p.image == ResourceName::Story3));
    assert_eq!(story.pages[2].lines.len(), 2);
}

#[test]
fn opening_story_leads_to_first_stage() {
    let mut game = GameState::new();
    assert_eq!(game.duration, None);
    // reading without clicking stays on the first page
    game.frame(0, idle(), 0);
    match &game.screen {
        Screen::Dialog(Dialog::Story(s, Stage::A1)) => assert_eq!(s.pages.len(), 11),
        _ => panic!("expected the opening story"),
    }
    for tick in 1..=11usize {
        assert_eq!(game.frame(tick, click(), 0), None);
    }
    assert_eq!(stage_of(&game), None);
    game.frame(12, idle(), 0);
    assert_eq!(stage_of(&game), Some(Stage::A1));
}

#[test]
fn main_menu_click_starts_first_stage() {
    let mut game = GameState { screen: Screen::MainMenu, duration: Some(3) };
    game.frame(0, idle(), 0);
    assert!(matches!(game.screen, Screen::MainMenu));
    game.frame(1, click(), 0);
    assert_eq!(stage_of(&game), Some(Stage::A1));
    assert_eq!(game.duration, None);
}

#[test]
fn winning_easy_stage_tells_story_then_shift() {
    let mut level = level_template(Stage::A1);
    level.money = 999_999;
    let mut game = GameState { screen: Screen::Stage(Stage::A1, level), duration: None };
    assert_eq!(game.frame(1, idle(), 0), Some(Outcome::Won));
    match &game.screen {
        Screen::Dialog(Dialog::Story(s, Stage::B1)) => assert_eq!(s.pages.len(), 14),
        _ => panic!("expected the story before the shift"),
    }
    for tick in 2..16usize {
        game.frame(tick, click(), 0);
    }
    game.frame(16, idle(), 0);
    assert_eq!(stage_of(&game), Some(Stage::B1));
    game.frame(17, idle(), 0);
    assert_eq!(game.duration, Some(1));
}

#[test]
fn losing_a_shift_offers_retry_from_fresh_state() {
    let mut level = level_template(Stage::B1);
    level.objects[0].dirtiness = 40;
    level.money = 77;
    let mut game = GameState { screen: Screen::Stage(Stage::B1, level), duration: Some(500) };
    assert_eq!(game.frame(7, idle(), 0), Some(Outcome::Lost));
    assert!(matches!(game.screen, Screen::Dialog(Dialog::Lost(Stage::B1))));
    assert_eq!(game.duration, None);
    game.frame(8, click(), 0);
    match &game.screen {
        Screen::Stage(Stage::B1, l) => {
            assert_eq!(l.money, 0);
            assert_eq!(l.objects[0].dirtiness, 163);
        },
        _ => panic!("expected a retry of the shift"),
    }
}

#[test]
fn winning_shift_ends_the_game() {
    let mut level = level_template(Stage::B1);
    level.money = 10_000_001;
    let mut game = GameState { screen: Screen::Stage(Stage::B1, level), duration: None };
    assert_eq!(game.frame(1, idle(), 0), Some(Outcome::Won));
    assert!(matches!(game.screen, Screen::Dialog(Dialog::Thanks)));
    game.frame(2, click(), 0);
    assert!(matches!(game.screen, Screen::Dialog(Dialog::Thanks)));
}

#[test]
fn won_dialog_advances_on_click() {
    let mut game = GameState { screen: Screen::Dialog(Dialog::Won(Stage::A1, Stage::B1)), duration: None };
    game.frame(0, idle(), 0);
    assert!(matches!(game.screen, Screen::Dialog(Dialog::Won(Stage::A1, Stage::B1))));
    game.frame(1, click(), 0);
    assert_eq!(stage_of(&game), Some(Stage::B1));
}
