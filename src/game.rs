use vstd::prelude::*;

use crate::geometry::{LineSegment, Point};
use crate::infestation::{midpoint_offset, DirtyObj};
use crate::level::{
    level_step, manage_level, Difficulty, LevelState, Outcome, Pointer, ResourceName,
};

verus! {

/// The levels of the game.
#[derive(Clone, Copy, Debug, PartialEq, Eq, Hash, Structural)]
pub enum Stage {
    A1,
    B1,
}

impl Stage {
    /// The label shown for the stage.
    pub fn name(&self) -> (r: &'static str)
        ensures
            *self == Stage::A1 ==> r@ == "A1"@,
            *self == Stage::B1 ==> r@ == "B2"@,
    {
        match self {
            Stage::A1 => "A1",
            Stage::B1 => "B2",
        }
    }
}

/// One page of a story: a picture and the lines written over it.
#[derive(Clone, Debug)]
pub struct StoryPage {
    pub image: ResourceName,
    pub lines: Vec<String>,
}

/// The pages of a story that are still to be read, in order.
#[derive(Clone, Debug)]
pub struct StoryIter {
    pub pages: Vec<StoryPage>,
}

impl StoryIter {
    /// The page being read, if any is left.
    pub fn peek(&self) -> (r: Option<&StoryPage>)
        ensures
            self.pages@.len() == 0 ==> r is None,
            self.pages@.len() > 0 ==> r == Some(&self.pages@[0]),
    {
        if self.pages.len() == 0 {
            None
        } else {
            Some(&self.pages[0])
        }
    }

    /// Turns the page: removes and returns the page being read.
    pub fn next(&mut self) -> (r: Option<StoryPage>)
        ensures
            old(self).pages@.len() == 0 ==> r is None && final(self).pages@ == old(self).pages@,
            old(self).pages@.len() > 0 ==> r == Some(old(self).pages@[0]) && final(self).pages@
                == old(self).pages@.drop_first(),
    {
        if self.pages.len() == 0 {
            None
        } else {
            Some(self.pages.remove(0))
        }
    }
}

/// What a dialog screen shows.
#[derive(Clone, Debug)]
pub enum Dialog {
    /// The stage was lost; a click retries it.
    Lost(Stage),
    /// The first stage was won; a click goes on to the second.
    Won(Stage, Stage),
    /// A story, then the stage that follows it.
    Story(StoryIter, Stage),
    /// The end of the game.
    Thanks,
}

/// The screen in play.
#[derive(Clone, Debug)]
pub enum Screen {
    MainMenu,
    Stage(Stage, LevelState),
    Dialog(Dialog),
}

/// The whole game: the screen in play and the shift clock.
#[derive(Clone, Debug)]
pub struct GameState {
    pub screen: Screen,
    /// Ticks into the current shift; `None` off a shift.
    pub duration: Option<usize>,
}

pub open spec fn seg(x1: i32, y1: i32, x2: i32, y2: i32) -> LineSegment {
    LineSegment { start: Point { x: x1, y: y1 }, end: Point { x: x2, y: y2 } }
}

/// The object that `DirtyObj::new` builds from these values.
pub open spec fn dirty_obj(
    dirtiness: u8,
    start: LineSegment,
    end: LineSegment,
    amount: usize,
    chance_bidir: u8,
) -> DirtyObj {
    DirtyObj { dirtiness, start, end, amount, distance: midpoint_offset(start, end), chance_bidir }
}

/// The objects that a stage starts with.
pub open spec fn template_objects(stage: Stage) -> Seq<DirtyObj> {
    match stage {
        Stage::A1 => seq![
            dirty_obj(64, seg(179, 412, 223, 412), seg(186, 360, 215, 361), 200, 0),
            dirty_obj(64, seg(250, 404, 590, 404), seg(278, 361, 575, 361), 700, 128),
            dirty_obj(64, seg(624, 369, 636, 391), seg(652, 355, 664, 378), 90, 63),
        ],
        Stage::B1 => seq![
            dirty_obj(163, seg(332, 126, 404, 126), seg(332, 178, 404, 178), 500, 63),
            dirty_obj(162, seg(674, 196, 674, 262), seg(614, 220, 614, 222), 800, 0),
            dirty_obj(163, seg(332, 273, 404, 273), seg(332, 325, 404, 325), 500, 225),
        ],
    }
}

/// `level` is the fresh state that `stage` starts from.
pub open spec fn is_template(stage: Stage, level: LevelState) -> bool {
    &&& level.objects@ == template_objects(stage)
    &&& level.money == 0
    &&& match stage {
        Stage::A1 => {
            &&& level.difficulty == Difficulty::Easy
            &&& level.scene == ResourceName::ImageA1
            &&& level.money_goal == 1_000_000
            &&& level.repellants == 0
            &&& level.repellant_name@ == "Repellant"@
            &&& level.repellant_price == 4_000
        },
        Stage::B1 => {
            &&& level.difficulty == Difficulty::Medium
            &&& level.scene == ResourceName::ImageB1
            &&& level.money_goal == 10_000_000
            &&& level.repellants == 1
            &&& level.repellant_name@ == "Drones"@
            &&& level.repellant_price == 100_000
        },
    }
}

/// `screen` plays `stage` from its fresh state.
pub open spec fn entered(stage: Stage, screen: Screen) -> bool {
    screen matches Screen::Stage(s, level) && s == stage && is_template(stage, level)
}

/// The story told on the way to the second stage.
pub open spec fn is_center_story(story: StoryIter) -> bool {
    &&& story.pages@.len() == 14
    &&& forall|i: int|
        0 <= i < story.pages@.len() ==> (#[trigger] story.pages@[i]).image == ResourceName::Story3
}

/// The story that opens the game.
pub open spec fn is_intro_story(story: StoryIter) -> bool {
    &&& story.pages@.len() == 11
    &&& forall|i: int|
        0 <= i < story.pages@.len() ==> (#[trigger] story.pages@[i]).image == ResourceName::Story2
}

/// The screen that follows a level of `difficulty` on `stage` that ended with
/// `outcome`: an easy level won leads through a story to the second stage, a
/// shift won ends the game, and a lost level offers a retry of the same stage.
pub open spec fn shows_after(stage: Stage, difficulty: Difficulty, outcome: Outcome, screen: Screen) -> bool {
    match outcome {
        Outcome::Won => match difficulty {
            Difficulty::Easy => screen matches Screen::Dialog(Dialog::Story(story, next)) && next
                == Stage::B1 && is_center_story(story),
            Difficulty::Medium => screen matches Screen::Dialog(Dialog::Thanks),
        },
        Outcome::Lost => screen matches Screen::Dialog(Dialog::Lost(s)) && s == stage,
    }
}

fn page(image: ResourceName, line: &str) -> (r: StoryPage)
    ensures
        r.image == image,
{
    StoryPage { image, lines: vec![line.to_owned()] }
}

fn page2(image: ResourceName, first: &str, second: &str) -> (r: StoryPage)
    ensures
        r.image == image,
{
    StoryPage { image, lines: vec![first.to_owned(), second.to_owned()] }
}

/// The story that opens the game.
pub fn story_intro() -> (r: StoryIter)
    ensures
        is_intro_story(r),
{
    let im = ResourceName::Story2;
    let pages = vec![
        page(im, "the year is 2027. you had big expectations of this year back in 2024."),
        page(im, "instead, you get an ant infestation epidemic. ants have gotten a lot more adaptive."),
        page2(
            im,
            "a person living with upper-class income can afford to avoid ants from infesting any",
            "dust, food or sweat for 5 minutes.",
        ),
        page(im, "I, on the other hand have to compromise for a grand 5 seconds."),
        page(im, "the only way out from this anguish is to buy a place at the centre."),
        page2(
            im,
            "i have lots of clients in need of a website to advertise their",
            "ant-repellant products.",
        ),
        page(im, "all i need is to survive"),
        page2(
            im,
            "its difficult to have hope in these times but a little energy and a little strategy",
            "and i may be able to make it out.",
        ),
        page(im, "i can buy repellant to slow down how fast these bad boys multiply."),
        page(im, "as long as they dont filth all of my belongings, ill make it."),
        page(im, "i make money every second that i am not busy tending to ants."),
    ];
    StoryIter { pages }
}

/// The story told between the first stage and the second.
pub fn story_center() -> (r: StoryIter)
    ensures
        is_center_story(r),
{
    let im = ResourceName::Story3;
    let pages = vec![
        page(im, "well done, you did it. you earned enough money to move to the center."),
        page(im, "you are now ant free. this feels like heaven."),
        page2(
            im,
            "the center has some next-generation technology that makes the ants pass out",
            "for very long durations of time.",
        ),
        page(im, "they are still up in their labs looking for ways to kill an ant, i hear."),
        page(im, "however, the luxury has changed you."),
        page(im, "made you afraid of losing it."),
        page2(
            im,
            "your new job pays very handsomly and the better you do your job,",
            "the more years you secure this life.",
        ),
        page(im, "you are loyal to the work you do and the people who pay you for it."),
        page2(
            im,
            "you collect all the ants rendered unconscious by the machine and",
            "sneakily dump them outside for a living!",
        ),
        page2(
            im,
            "the toxic substance used by the machine is not fit to be touched",
            "so you get to use drones to go deliver the bags of ants for you.",
        ),
        page(im, "you're in charge of a small street with only 3 inhabited houses."),
        page2(
            im,
            "your job involves being careful that you go unnoticed, and this includes",
            "not making any of the residents suspicious.",
        ),
        page(im, "unloading too many ants as well as not unloading enough will bring suspicion."),
        page(im, "your shift starts as soon as the shift before you ends. get ready"),
    ];
    StoryIter { pages }
}

fn segment(x1: i32, y1: i32, x2: i32, y2: i32) -> (r: LineSegment)
    ensures
        r == seg(x1, y1, x2, y2),
{
    LineSegment::new(Point::new(x1, y1), Point::new(x2, y2))
}

/// The fresh state that `stage` starts from.
pub fn level_template(stage: Stage) -> (r: LevelState)
    ensures
        is_template(stage, r),
        r.wf(),
{
    match stage {
        Stage::A1 => {
            let objects = vec![
                DirtyObj::new(64, segment(179, 412, 223, 412), segment(186, 360, 215, 361), 200, 0),
                DirtyObj::new(64, segment(250, 404, 590, 404), segment(278, 361, 575, 361), 700, 128),
                DirtyObj::new(64, segment(624, 369, 636, 391), segment(652, 355, 664, 378), 90, 63),
            ];
            assert(objects@ =~= template_objects(stage));
            LevelState {
                objects,
                difficulty: Difficulty::Easy,
                scene: ResourceName::ImageA1,
                money: 0,
                money_goal: 1_000_000,
                repellants: 0,
                repellant_name: "Repellant".to_owned(),
                repellant_price: 4_000,
            }
        },
        Stage::B1 => {
            let objects = vec![
                DirtyObj::new(163, segment(332, 126, 404, 126), segment(332, 178, 404, 178), 500, 63),
                DirtyObj::new(162, segment(674, 196, 674, 262), segment(614, 220, 614, 222), 800, 0),
                DirtyObj::new(163, segment(332, 273, 404, 273), segment(332, 325, 404, 325), 500, 225),
            ];
            assert(objects@ =~= template_objects(stage));
            LevelState {
                objects,
                difficulty: Difficulty::Medium,
                scene: ResourceName::ImageB1,
                money: 0,
                money_goal: 10_000_000,
                repellants: 1,
                repellant_name: "Drones".to_owned(),
                repellant_price: 100_000,
            }
        },
    }
}

/// Plays `stage` from its fresh state.
pub fn enter_stage(stage: Stage) -> (r: Screen)
    ensures
        entered(stage, r),
{
    Screen::Stage(stage, level_template(stage))
}

/// The screen that follows a level that ended with `outcome`.
pub fn screen_after(stage: Stage, difficulty: Difficulty, outcome: Outcome) -> (r: Screen)
    ensures
        shows_after(stage, difficulty, outcome, r),
{
    match outcome {
        Outcome::Won => match difficulty {
            Difficulty::Easy => Screen::Dialog(Dialog::Story(story_center(), Stage::B1)),
            Difficulty::Medium => Screen::Dialog(Dialog::Thanks),
        },
        Outcome::Lost => Screen::Dialog(Dialog::Lost(stage)),
    }
}

impl GameState {
    /// The game as it starts: the opening story, then the first stage.
    pub fn new() -> (r: GameState)
        ensures
            r.screen matches Screen::Dialog(Dialog::Story(story, next)) && next == Stage::A1
                && is_intro_story(story),
            r.duration is None,
    {
        GameState { screen: Screen::Dialog(Dialog::Story(story_intro(), Stage::A1)), duration: None }
    }

    /// One frame of the game, with the pointer as sampled for it. On a stage the
    /// level steps, and the outcome of the step is returned. `click_bonus` is
    /// handed to `manage_level`.
    pub fn frame(&mut self, tick: usize, pointer: Pointer, click_bonus: u64) -> (r: Option<Outcome>)
        ensures
            !(old(self).screen is Stage) ==> r is None,
            match old(self).screen {
                Screen::MainMenu => if pointer.pressed {
                    entered(Stage::A1, final(self).screen) && final(self).duration is None
                } else {
                    *final(self) == *old(self)
                },
                Screen::Dialog(Dialog::Won(_, next)) => if pointer.pressed {
                    entered(next, final(self).screen) && final(self).duration is None
                } else {
                    *final(self) == *old(self)
                },
                Screen::Dialog(Dialog::Lost(stage)) => if pointer.pressed {
                    entered(stage, final(self).screen) && final(self).duration is None
                } else {
                    *final(self) == *old(self)
                },
                Screen::Dialog(Dialog::Story(story, next)) => if story.pages@.len() == 0 {
                    entered(next, final(self).screen) && final(self).duration is None
                } else if pointer.pressed {
                    &&& final(self).screen matches Screen::Dialog(Dialog::Story(rest, n))
                    &&& n == next
                    &&& rest.pages@ == story.pages@.drop_first()
                    &&& final(self).duration == old(self).duration
                } else {
                    *final(self) == *old(self)
                },
                Screen::Dialog(Dialog::Thanks) => *final(self) == *old(self),
                Screen::Stage(stage, level) => match r {
                    None => {
                        &&& final(self).screen matches Screen::Stage(s, after)
                        &&& s == stage
                        &&& level_step(
                            level,
                            old(self).duration,
                            tick as int,
                            pointer,
                            click_bonus as int,
                            after,
                            final(self).duration,
                            None,
                        )
                    },
                    Some(outcome) => {
                        &&& shows_after(stage, level.difficulty, outcome, final(self).screen)
                        &&& final(self).duration is None
                        &&& exists|after: LevelState, d: Option<usize>|
                            #[trigger] level_step(
                                level,
                                old(self).duration,
                                tick as int,
                                pointer,
                                click_bonus as int,
                                after,
                                d,
                                Some(outcome),
                            )
                    },
                },
            },
    {
        let mut outcome: Option<Outcome> = None;
        let next: Option<Screen> = match &mut self.screen {
            Screen::MainMenu => if pointer.pressed {
                Some(enter_stage(Stage::A1))
            } else {
                None
            },
            Screen::Dialog(dialog) => match dialog {
                Dialog::Won(_, next_stage) => if pointer.pressed {
                    Some(enter_stage(*next_stage))
                } else {
                    None
                },
                Dialog::Lost(stage) => if pointer.pressed {
                    Some(enter_stage(*stage))
                } else {
                    None
                },
                Dialog::Story(story, next_stage) => if story.pages.len() == 0 {
                    Some(enter_stage(*next_stage))
                } else {
                    if pointer.pressed {
                        let _ = story.next();
                    }
                    None
                },
                Dialog::Thanks => None,
            },
            Screen::Stage(stage, level) => {
                let difficulty = level.difficulty;
                outcome = manage_level(level, tick, &mut self.duration, pointer, click_bonus);
                match outcome {
                    Some(o) => Some(screen_after(*stage, difficulty, o)),
                    None => None,
                }
            },
        };
        if let Some(screen) = next {
            self.screen = screen;
            self.duration = None;
        }
        outcome
    }
}

} // verus!
