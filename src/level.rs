use vstd::prelude::*;

use crate::geometry::{LineSegment, Point};
use crate::infestation::{lerp_ant, lerp_ant_spec, DirtyObj};
use crate::noise::{noise, noise_at};

verus! {

/// Which rules a level plays by.
#[derive(Clone, Copy, Debug, PartialEq, Eq, Structural)]
pub enum Difficulty {
    /// Keep the objects clean while money comes in on its own.
    Easy,
    /// A timed shift: keep every object's dirtiness inside a band while
    /// clicking pays.
    Medium,
}

/// The images that the game draws.
#[derive(Clone, Copy, Debug, PartialEq, Eq, Hash, Structural)]
pub enum ResourceName {
    ImageA1,
    ImageB1,
    Ant,
    AntSV,
    AntSVCrit,
    AntSH,
    AntSHCrit,
    AntCrit,
    Story1,
    Story2,
    Story3,
}

/// An object dirtier than this counts as overrun.
pub const MAX_DIRTINESS: u8 = 200;

/// An object dirtier than this shows alarmed creatures.
pub const WARN_DIRTINESS: u8 = 180;

/// On a shift, an object cleaner than this draws suspicion.
pub const MIN_SHIFT_DIRTINESS: u8 = 40;

/// How many ticks a shift lasts.
pub const MEDIUM_DURATION: usize = 4 * 60 * 60;

/// Money is counted in thousandths. An untouched object earns this much per
/// tick on an easy level while the button is up.
pub const IDLE_PAY: u64 = 100;

/// On a shift, each tick of holding the button on an object earns this much
/// before the upgrade bonus.
pub const CLICK_PAY: u64 = 500;

/// The state of one level in play.
#[derive(Clone, Debug)]
pub struct LevelState {
    pub objects: Vec<DirtyObj>,
    pub difficulty: Difficulty,
    pub scene: ResourceName,
    /// In thousandths.
    pub money: u64,
    /// In thousandths.
    pub money_goal: u64,
    pub repellants: u16,
    pub repellant_name: String,
    /// In thousandths.
    pub repellant_price: u64,
}

/// The pointer as sampled for one frame.
#[derive(Clone, Copy, Debug, PartialEq, Eq, Structural)]
pub struct Pointer {
    pub position: Point,
    /// The primary button is down.
    pub held: bool,
    /// The primary button went down this frame.
    pub pressed: bool,
}

/// How a level ended.
#[derive(Clone, Copy, Debug, PartialEq, Eq, Structural)]
pub enum Outcome {
    Won,
    Lost,
}

/// One creature to draw this frame.
#[derive(Clone, Copy, Debug, PartialEq, Eq, Structural)]
pub struct AntSprite {
    pub image: ResourceName,
    pub x: i64,
    pub y: i64,
    /// The index of the object that the creature belongs to.
    pub object: usize,
}

impl LevelState {
    /// Every object's `distance` is the one derived from its boundaries.
    pub open spec fn wf(self) -> bool {
        forall|i: int| 0 <= i < self.objects@.len() ==> (#[trigger] self.objects@[i]).wf()
    }

    /// Whether every object's `distance` is the one derived from its boundaries.
    pub fn is_wf(&self) -> (r: bool)
        ensures
            r == self.wf(),
    {
        let mut i: usize = 0;
        while i < self.objects.len()
            invariant
                i <= self.objects@.len(),
                forall|j: int| 0 <= j < i ==> (#[trigger] self.objects@[j]).wf(),
            decreases self.objects@.len() - i,
        {
            if !self.objects[i].is_wf() {
                return false;
            }
            i = i + 1;
        }
        true
    }
}

/// `v` held to the range of a `u8`.
pub open spec fn clamp_u8(v: int) -> u8 {
    if v < 0 {
        0
    } else if v > 255 {
        255
    } else {
        v as u8
    }
}

/// Every how many ticks dirtiness drifts on its own.
pub open spec fn update_period(difficulty: Difficulty, repellants: int) -> int {
    match difficulty {
        Difficulty::Easy => 7 + 3 * repellants / 10,
        Difficulty::Medium => 7,
    }
}

/// Dirtiness drifts on this tick.
pub open spec fn update_due(difficulty: Difficulty, repellants: int, tick: int) -> bool {
    tick % update_period(difficulty, repellants) == 0
}

/// The dirtiness after one tick: the drift (up on an easy level, down on a
/// shift) when it is due, then the effect of a click (down on an easy level, up
/// on a shift), each held to `0..=255`.
pub open spec fn stepped_dirtiness(
    difficulty: Difficulty,
    repellants: int,
    tick: int,
    dirtiness: u8,
    clicked: bool,
) -> u8 {
    let drift: int = match difficulty {
        Difficulty::Easy => 1,
        Difficulty::Medium => -1,
    };
    let drifted = if update_due(difficulty, repellants, tick) {
        clamp_u8(dirtiness + drift)
    } else {
        dirtiness
    };
    if clicked {
        clamp_u8(drifted - drift)
    } else {
        drifted
    }
}

/// The button is held with the pointer over the object's region.
pub open spec fn clicked_on(object: DirtyObj, pointer: Pointer) -> bool {
    pointer.held && object.start.spans(object.end, pointer.position)
}

/// `object` with its dirtiness replaced.
pub open spec fn with_dirtiness(object: DirtyObj, dirtiness: u8) -> DirtyObj {
    DirtyObj {
        dirtiness,
        start: object.start,
        end: object.end,
        amount: object.amount,
        distance: object.distance,
        chance_bidir: object.chance_bidir,
    }
}

/// `object` after one tick.
pub open spec fn stepped_object(
    difficulty: Difficulty,
    repellants: int,
    tick: int,
    object: DirtyObj,
    pointer: Pointer,
) -> DirtyObj {
    with_dirtiness(
        object,
        stepped_dirtiness(
            difficulty,
            repellants,
            tick,
            object.dirtiness,
            clicked_on(object, pointer),
        ),
    )
}

/// What one object earns in one tick: on an easy level, `IDLE_PAY` while the
/// button is up; on a shift, `CLICK_PAY` plus the bonus while it is held on the
/// object.
pub open spec fn object_pay(difficulty: Difficulty, object: DirtyObj, pointer: Pointer, bonus: int) -> int {
    match difficulty {
        Difficulty::Easy => if pointer.held {
            0
        } else {
            IDLE_PAY as int
        },
        Difficulty::Medium => if clicked_on(object, pointer) {
            CLICK_PAY + bonus
        } else {
            0
        },
    }
}

/// What the first `n` objects earn in one tick.
pub open spec fn pay_upto(
    difficulty: Difficulty,
    objects: Seq<DirtyObj>,
    pointer: Pointer,
    bonus: int,
    n: int,
) -> int
    decreases n,
{
    if n <= 0 {
        0
    } else {
        pay_upto(difficulty, objects, pointer, bonus, n - 1) + object_pay(
            difficulty,
            objects[n - 1],
            pointer,
            bonus,
        )
    }
}

/// `a + b`, held to the range of a `u64`.
pub open spec fn saturated(a: int, b: int) -> u64 {
    if a + b > u64::MAX {
        u64::MAX
    } else {
        (a + b) as u64
    }
}

/// The object counts against the player: overrun, or on a shift also too clean.
pub open spec fn finished(difficulty: Difficulty, dirtiness: u8) -> bool {
    match difficulty {
        Difficulty::Easy => dirtiness > MAX_DIRTINESS,
        Difficulty::Medium => dirtiness > MAX_DIRTINESS || dirtiness < MIN_SHIFT_DIRTINESS,
    }
}

/// The shift clock after one tick: it counts ticks on a shift and is cleared on
/// any other level.
pub open spec fn next_duration(difficulty: Difficulty, duration: Option<usize>) -> Option<usize> {
    match difficulty {
        Difficulty::Easy => None,
        Difficulty::Medium => {
            let d = match duration {
                Some(d) => d as int,
                None => 0,
            };
            Some(if d == usize::MAX {
                usize::MAX
            } else {
                (d + 1) as usize
            })
        },
    }
}

/// The top and bottom edges of the upgrade button.
pub open spec fn buy_button_spec() -> (LineSegment, LineSegment) {
    (
        LineSegment { start: Point { x: 780, y: 10 }, end: Point { x: 950, y: 10 } },
        LineSegment { start: Point { x: 780, y: 40 }, end: Point { x: 950, y: 40 } },
    )
}

/// An upgrade is bought: the button is pressed over the upgrade button, the
/// money exceeds the price and the count can still grow.
pub open spec fn buys(pointer: Pointer, money: u64, price: u64, repellants: u16) -> bool {
    pointer.pressed && buy_button_spec().0.spans(buy_button_spec().1, pointer.position) && money
        > price && repellants < u16::MAX
}

/// How the level stands, in this order: won once the money passes the goal;
/// on an easy level lost once every object is overrun; on a shift lost once
/// any object is overrun or too clean, or the clock has passed the shift's
/// length; else still in play.
pub open spec fn outcome_of(level: LevelState, duration: Option<usize>) -> Option<Outcome> {
    if level.money > level.money_goal {
        Some(Outcome::Won)
    } else if level.difficulty == Difficulty::Easy && forall|j: int|
        0 <= j < level.objects@.len() ==> finished(
            Difficulty::Easy,
            (#[trigger] level.objects@[j]).dirtiness,
        ) {
        Some(Outcome::Lost)
    } else if level.difficulty == Difficulty::Medium && ((exists|j: int|
        0 <= j < level.objects@.len() && finished(
            Difficulty::Medium,
            (#[trigger] level.objects@[j]).dirtiness,
        )) || (duration matches Some(d) && d > MEDIUM_DURATION)) {
        Some(Outcome::Lost)
    } else {
        None
    }
}

proof fn lemma_pay_upto_nonnegative(
    difficulty: Difficulty,
    objects: Seq<DirtyObj>,
    pointer: Pointer,
    bonus: int,
    n: int,
)
    requires
        bonus >= 0,
    ensures
        pay_upto(difficulty, objects, pointer, bonus, n) >= 0,
    decreases n,
{
    if n > 0 {
        lemma_pay_upto_nonnegative(difficulty, objects, pointer, bonus, n - 1);
    }
}

/// Adding in two saturating steps is adding once, where the second step is
/// the full amount or already saturates on its own.
proof fn lemma_saturated_twice(a: int, p: int, x: int, full: int)
    requires
        0 <= a <= u64::MAX,
        p >= 0,
        0 <= x <= full,
        x == full || x == u64::MAX,
    ensures
        saturated(saturated(a, p) as int, x) == saturated(a, p + full),
{
}

/// One tick of a level, from `before` to `after`: every object steps, money
/// comes in and an upgrade may be bought, the shift clock moves, and `outcome`
/// tells how the level stands afterwards.
pub open spec fn level_step(
    before: LevelState,
    duration_before: Option<usize>,
    tick: int,
    pointer: Pointer,
    bonus: int,
    after: LevelState,
    duration_after: Option<usize>,
    outcome: Option<Outcome>,
) -> bool {
    &&& after.difficulty == before.difficulty
    &&& after.scene == before.scene
    &&& after.money_goal == before.money_goal
    &&& after.repellant_name == before.repellant_name
    &&& after.repellant_price == before.repellant_price
    &&& after.objects@.len() == before.objects@.len()
    &&& forall|j: int|
        0 <= j < before.objects@.len() ==> #[trigger] after.objects@[j] == stepped_object(
            before.difficulty,
            before.repellants as int,
            tick,
            before.objects@[j],
            pointer,
        )
    &&& ({
        let earned = saturated(
            before.money as int,
            pay_upto(
                before.difficulty,
                before.objects@,
                pointer,
                bonus,
                before.objects@.len() as int,
            ),
        );
        if buys(pointer, earned, before.repellant_price, before.repellants) {
            after.money == earned - before.repellant_price && after.repellants
                == before.repellants + 1
        } else {
            after.money == earned && after.repellants == before.repellants
        }
    })
    &&& duration_after == next_duration(before.difficulty, duration_before)
    &&& outcome == outcome_of(after, duration_after)
}

/// Above this noise value (parts per billion) a creature on an overrun object
/// of an easy level looks alarmed.
pub const EASY_ALARM_NOISE: u32 = 900_000_000;

/// Above this noise value (parts per billion) a creature on an overrun object
/// of a shift looks alarmed.
pub const SHIFT_ALARM_NOISE: u32 = 700_000_000;

/// The image of the creature with sample index `idx` on object `object_id`,
/// and how far it is drawn up and to the left of its position.
pub open spec fn ant_look(difficulty: Difficulty, object_id: int, dirtiness: u8, idx: int) -> (
    ResourceName,
    i64,
    i64,
) {
    let alarmed = dirtiness > WARN_DIRTINESS;
    match difficulty {
        Difficulty::Easy => if alarmed && noise_at(idx) > EASY_ALARM_NOISE {
            (ResourceName::AntCrit, 4, 4)
        } else {
            (ResourceName::Ant, 4, 4)
        },
        Difficulty::Medium => if object_id == 1 {
            if alarmed && noise_at(idx) > SHIFT_ALARM_NOISE {
                (ResourceName::AntSHCrit, 1, 0)
            } else {
                (ResourceName::AntSH, 1, 0)
            }
        } else {
            if alarmed && noise_at(idx) > SHIFT_ALARM_NOISE {
                (ResourceName::AntSVCrit, 0, 1)
            } else {
                (ResourceName::AntSV, 0, 1)
            }
        },
    }
}

/// How many creatures an object samples: its two boundaries' point
/// sequences, paired, stopping at the shorter.
pub open spec fn sample_count(object: DirtyObj) -> int {
    let a = object.start.points_on_len(object.amount as nat) as int;
    let b = object.end.points_on_len(object.amount as nat) as int;
    if a <= b {
        a
    } else {
        b
    }
}

/// The sprite of the creature with sample index `k` on an object, if it shows.
pub open spec fn sample_sprite(
    difficulty: Difficulty,
    object: DirtyObj,
    object_id: int,
    tick: int,
    k: int,
) -> Seq<AntSprite> {
    let s = object.start.points_on_spec(object.amount as nat)[k];
    let e = object.end.points_on_spec(object.amount as nat)[k];
    match lerp_ant_spec(tick, object, s, e, k, difficulty == Difficulty::Easy) {
        Some((x, y)) => {
            let look = ant_look(difficulty, object_id, object.dirtiness, k);
            seq![
                AntSprite {
                    image: look.0,
                    x: (x - look.1) as i64,
                    y: (y - look.2) as i64,
                    object: object_id as usize,
                },
            ]
        },
        None => Seq::empty(),
    }
}

/// The sprites of the first `n` samples of an object.
pub open spec fn object_sprites(
    difficulty: Difficulty,
    object: DirtyObj,
    object_id: int,
    tick: int,
    n: int,
) -> Seq<AntSprite>
    decreases n,
{
    if n <= 0 {
        Seq::empty()
    } else {
        object_sprites(difficulty, object, object_id, tick, n - 1) + sample_sprite(
            difficulty,
            object,
            object_id,
            tick,
            n - 1,
        )
    }
}

/// The sprites of the first `m` objects, object by object.
pub open spec fn level_sprites(
    difficulty: Difficulty,
    objects: Seq<DirtyObj>,
    tick: int,
    m: int,
) -> Seq<AntSprite>
    decreases m,
{
    if m <= 0 {
        Seq::empty()
    } else {
        level_sprites(difficulty, objects, tick, m - 1) + object_sprites(
            difficulty,
            objects[m - 1],
            m - 1,
            tick,
            sample_count(objects[m - 1]),
        )
    }
}

/// The image and drawing offset of one creature.
pub fn ant_kind(difficulty: Difficulty, object_id: usize, dirtiness: u8, idx: usize) -> (r: (
    ResourceName,
    i64,
    i64,
))
    ensures
        r == ant_look(difficulty, object_id as int, dirtiness, idx as int),
{
    let alarmed = dirtiness > WARN_DIRTINESS;
    match difficulty {
        Difficulty::Easy => if alarmed && noise(idx) > EASY_ALARM_NOISE {
            (ResourceName::AntCrit, 4, 4)
        } else {
            (ResourceName::Ant, 4, 4)
        },
        Difficulty::Medium => if object_id == 1 {
            if alarmed && noise(idx) > SHIFT_ALARM_NOISE {
                (ResourceName::AntSHCrit, 1, 0)
            } else {
                (ResourceName::AntSH, 1, 0)
            }
        } else {
            if alarmed && noise(idx) > SHIFT_ALARM_NOISE {
                (ResourceName::AntSVCrit, 0, 1)
            } else {
                (ResourceName::AntSV, 0, 1)
            }
        },
    }
}

/// Appends the sprites of one object's creatures at `tick`.
fn push_object_sprites(
    out: &mut Vec<AntSprite>,
    difficulty: Difficulty,
    object: &DirtyObj,
    object_id: usize,
    tick: usize,
)
    requires
        object.wf(),
    ensures
        final(out)@ == old(out)@ + object_sprites(
            difficulty,
            *object,
            object_id as int,
            tick as int,
            sample_count(*object),
        ),
{
    let starts = object.start.points_on(object.amount);
    let ends = object.end.points_on(object.amount);
    let count: usize = if starts.len() <= ends.len() {
        starts.len()
    } else {
        ends.len()
    };
    let randomize_end = difficulty == Difficulty::Easy;
    let mut k: usize = 0;
    while k < count
        invariant
            object.wf(),
            count == sample_count(*object),
            count <= starts@.len(),
            count <= ends@.len(),
            starts@ == object.start.points_on_spec(object.amount as nat),
            ends@ == object.end.points_on_spec(object.amount as nat),
            randomize_end == (difficulty == Difficulty::Easy),
            k <= count,
            out@ == old(out)@ + object_sprites(difficulty, *object, object_id as int, tick as int, k as int),
        decreases count - k,
    {
        match lerp_ant(tick, object, starts[k], ends[k], k, randomize_end) {
            Some((x, y)) => {
                let (image, off_x, off_y) = ant_kind(difficulty, object_id, object.dirtiness, k);
                out.push(AntSprite { image, x: x - off_x, y: y - off_y, object: object_id });
            },
            None => {},
        }
        proof {
            assert(object_sprites(difficulty, *object, object_id as int, tick as int, k + 1) == object_sprites(
                difficulty,
                *object,
                object_id as int,
                tick as int,
                k as int,
            ) + sample_sprite(difficulty, *object, object_id as int, tick as int, k as int));
        }
        k = k + 1;
    }
}

/// The creatures to draw for a level at `tick`, object by object, each object's
/// in sample order.
pub fn ant_sprites(level: &LevelState, tick: usize) -> (r: Vec<AntSprite>)
    requires
        level.wf(),
    ensures
        r@ == level_sprites(level.difficulty, level.objects@, tick as int, level.objects@.len() as int),
{
    let mut out: Vec<AntSprite> = Vec::new();
    let mut i: usize = 0;
    while i < level.objects.len()
        invariant
            level.wf(),
            i <= level.objects@.len(),
            out@ == level_sprites(level.difficulty, level.objects@, tick as int, i as int),
        decreases level.objects@.len() - i,
    {
        push_object_sprites(&mut out, level.difficulty, &level.objects[i], i, tick);
        i = i + 1;
    }
    out
}

/// Moves a dirtiness by one, up or down, and keeps it in `0..=255`.
pub fn nudge(dirtiness: u8, up: bool) -> (r: u8)
    ensures
        r == clamp_u8(
            if up {
                dirtiness + 1
            } else {
                dirtiness - 1
            },
        ),
{
    if up {
        if dirtiness == u8::MAX {
            dirtiness
        } else {
            dirtiness + 1
        }
    } else {
        if dirtiness == 0 {
            dirtiness
        } else {
            dirtiness - 1
        }
    }
}

/// Whether dirtiness drifts on `tick`.
pub fn dirtiness_update_due(difficulty: Difficulty, repellants: u16, tick: usize) -> (r: bool)
    ensures
        r == update_due(difficulty, repellants as int, tick as int),
{
    let period: usize = match difficulty {
        Difficulty::Easy => 7 + (3 * repellants as usize) / 10,
        Difficulty::Medium => 7,
    };
    tick % period == 0
}

/// The dirtiness of an object after one tick.
pub fn step_dirtiness(
    difficulty: Difficulty,
    repellants: u16,
    tick: usize,
    dirtiness: u8,
    clicked: bool,
) -> (r: u8)
    ensures
        r == stepped_dirtiness(difficulty, repellants as int, tick as int, dirtiness, clicked),
{
    let easy = difficulty == Difficulty::Easy;
    let drifted = if dirtiness_update_due(difficulty, repellants, tick) {
        nudge(dirtiness, easy)
    } else {
        dirtiness
    };
    if clicked {
        nudge(drifted, !easy)
    } else {
        drifted
    }
}

/// Whether an object with this dirtiness counts against the player.
pub fn is_finished(difficulty: Difficulty, dirtiness: u8) -> (r: bool)
    ensures
        r == finished(difficulty, dirtiness),
{
    match difficulty {
        Difficulty::Easy => dirtiness > MAX_DIRTINESS,
        Difficulty::Medium => dirtiness > MAX_DIRTINESS || dirtiness < MIN_SHIFT_DIRTINESS,
    }
}

/// The shift clock after one tick.
pub fn advance_duration(difficulty: Difficulty, duration: Option<usize>) -> (r: Option<usize>)
    ensures
        r == next_duration(difficulty, duration),
{
    match difficulty {
        Difficulty::Easy => None,
        Difficulty::Medium => {
            let d: usize = match duration {
                Some(d) => d,
                None => 0,
            };
            Some(
                if d == usize::MAX {
                    d
                } else {
                    d + 1
                },
            )
        },
    }
}

/// The top and bottom edges of the upgrade button.
pub fn buy_button() -> (r: (LineSegment, LineSegment))
    ensures
        r == buy_button_spec(),
{
    (
        LineSegment::new(Point::new(780, 10), Point::new(950, 10)),
        LineSegment::new(Point::new(780, 40), Point::new(950, 40)),
    )
}

/// One tick of a level: every object's dirtiness drifts and reacts to the
/// pointer, money comes in, an upgrade may be bought, and the shift clock
/// moves; then the outcome, if the level is over. `click_bonus` is what one
/// upgraded click earns beyond `CLICK_PAY` on a shift, at the current number
/// of upgrades.
pub fn manage_level(
    level: &mut LevelState,
    tick: usize,
    duration: &mut Option<usize>,
    pointer: Pointer,
    click_bonus: u64,
) -> (r: Option<Outcome>)
    ensures
        level_step(
            *old(level),
            *old(duration),
            tick as int,
            pointer,
            click_bonus as int,
            *final(level),
            *final(duration),
            r,
        ),
        old(level).wf() ==> final(level).wf(),
{
    *duration = advance_duration(level.difficulty, *duration);
    let n = level.objects.len();
    let difficulty = level.difficulty;
    let mut all_finished = true;
    let mut any_finished = false;
    let mut i: usize = 0;
    while i < n
        invariant
            n == old(level).objects@.len(),
            level.objects@.len() == n,
            i <= n,
            difficulty == old(level).difficulty,
            level.difficulty == old(level).difficulty,
            level.scene == old(level).scene,
            level.money_goal == old(level).money_goal,
            level.repellants == old(level).repellants,
            level.repellant_name == old(level).repellant_name,
            level.repellant_price == old(level).repellant_price,
            level.money == saturated(
                old(level).money as int,
                pay_upto(difficulty, old(level).objects@, pointer, click_bonus as int, i as int),
            ),
            forall|j: int|
                0 <= j < i ==> #[trigger] level.objects@[j] == stepped_object(
                    difficulty,
                    old(level).repellants as int,
                    tick as int,
                    old(level).objects@[j],
                    pointer,
                ),
            forall|j: int| i <= j < n ==> #[trigger] level.objects@[j] == old(level).objects@[j],
            all_finished == forall|j: int|
                0 <= j < i ==> finished(
                    difficulty,
                    stepped_object(
                        difficulty,
                        old(level).repellants as int,
                        tick as int,
                        #[trigger] old(level).objects@[j],
                        pointer,
                    ).dirtiness,
                ),
            any_finished == exists|j: int|
                0 <= j < i && finished(
                    difficulty,
                    stepped_object(
                        difficulty,
                        old(level).repellants as int,
                        tick as int,
                        #[trigger] old(level).objects@[j],
                        pointer,
                    ).dirtiness,
                ),
        decreases n - i,
    {
        let object = level.objects[i];
        let ghost before = level.objects@;
        let ghost money_before = level.money;
        let clicked = pointer.held && object.start.lies_between(&object.end, pointer.position);
        let d = step_dirtiness(difficulty, level.repellants, tick, object.dirtiness, clicked);
        level.objects[i].dirtiness = d;
        let pay: u64 = match difficulty {
            Difficulty::Easy => if pointer.held {
                0
            } else {
                IDLE_PAY
            },
            Difficulty::Medium => if clicked {
                CLICK_PAY.saturating_add(click_bonus)
            } else {
                0
            },
        };
        level.money = level.money.saturating_add(pay);
        let fin = is_finished(difficulty, d);
        proof {
            assert(level.objects@ =~= before.update(i as int, with_dirtiness(object, d)));
            let obj_pay = object_pay(difficulty, object, pointer, click_bonus as int);
            lemma_pay_upto_nonnegative(difficulty, old(level).objects@, pointer, click_bonus as int, i as int);
            lemma_saturated_twice(
                old(level).money as int,
                pay_upto(difficulty, old(level).objects@, pointer, click_bonus as int, i as int),
                pay as int,
                obj_pay,
            );
        }
        all_finished = all_finished && fin;
        any_finished = any_finished || fin;
        i = i + 1;
    }
    proof {
        assert(forall|j: int|
            0 <= j < n ==> #[trigger] level.objects@[j] == stepped_object(
                difficulty,
                old(level).repellants as int,
                tick as int,
                old(level).objects@[j],
                pointer,
            ));
    }
    let (top, bottom) = buy_button();
    if pointer.pressed && top.lies_between(&bottom, pointer.position) && level.money
        > level.repellant_price && level.repellants < u16::MAX {
        level.repellants = level.repellants + 1;
        level.money = level.money - level.repellant_price;
    }
    proof {
        let reps = old(level).repellants as int;
        let objs = old(level).objects@;
        if all_finished {
            assert forall|j: int| 0 <= j < n implies finished(
                difficulty,
                (#[trigger] level.objects@[j]).dirtiness,
            ) by {
                assert(finished(
                    difficulty,
                    stepped_object(difficulty, reps, tick as int, objs[j], pointer).dirtiness,
                ));
            }
        } else {
            let j = choose|j: int|
                0 <= j < n && !finished(
                    difficulty,
                    stepped_object(difficulty, reps, tick as int, #[trigger] objs[j], pointer).dirtiness,
                );
            assert(level.objects@[j] == stepped_object(difficulty, reps, tick as int, objs[j], pointer));
        }
        if any_finished {
            let j = choose|j: int|
                0 <= j < n && finished(
                    difficulty,
                    stepped_object(difficulty, reps, tick as int, #[trigger] objs[j], pointer).dirtiness,
                );
            assert(level.objects@[j] == stepped_object(difficulty, reps, tick as int, objs[j], pointer));
        } else {
            assert forall|j: int| 0 <= j < n implies !finished(
                difficulty,
                (#[trigger] level.objects@[j]).dirtiness,
            ) by {
                assert(!finished(
                    difficulty,
                    stepped_object(difficulty, reps, tick as int, objs[j], pointer).dirtiness,
                ));
            }
        }
    }
    proof {
        let reps = old(level).repellants as int;
        let objs = old(level).objects@;
        if all_finished {
            assert forall|j: int| 0 <= j < n implies finished(
                difficulty,
                (#[trigger] level.objects@[j]).dirtiness,
            ) by {
                assert(finished(
                    difficulty,
                    stepped_object(difficulty, reps, tick as int, objs[j], pointer).dirtiness,
                ));
            }
        } else {
            let j = choose|j: int|
                0 <= j < n && !finished(
                    difficulty,
                    stepped_object(difficulty, reps, tick as int, #[trigger] objs[j], pointer).dirtiness,
                );
            assert(level.objects@[j] == stepped_object(difficulty, reps, tick as int, objs[j], pointer));
        }
        if any_finished {
            let j = choose|j: int|
                0 <= j < n && finished(
                    difficulty,
                    stepped_object(difficulty, reps, tick as int, #[trigger] objs[j], pointer).dirtiness,
                );
            assert(level.objects@[j] == stepped_object(difficulty, reps, tick as int, objs[j], pointer));
        } else {
            assert forall|j: int| 0 <= j < n implies !finished(
                difficulty,
                (#[trigger] level.objects@[j]).dirtiness,
            ) by {
                assert(!finished(
                    difficulty,
                    stepped_object(difficulty, reps, tick as int, objs[j], pointer).dirtiness,
                ));
            }
        }
    }
    if level.money > level.money_goal {
        Some(Outcome::Won)
    } else if difficulty == Difficulty::Easy && all_finished {
        Some(Outcome::Lost)
    } else if difficulty == Difficulty::Medium && (any_finished || match *duration {
        Some(d) => d > MEDIUM_DURATION,
        None => false,
    }) {
        Some(Outcome::Lost)
    } else {
        None
    }
}

} // verus!
