use vstd::prelude::*;

verus! {

/// Noise values are fractions in `[0, 1)` written in parts per billion.
pub const NOISE_SCALE: u64 = 1_000_000_000;

/// A fixed table of pseudo-random fractions (parts per billion), so that every
/// decision drawn from it repeats exactly from run to run.
pub const NOISE: [u32; 100] = [
    0, 375_670_670, 906_793_700, 478_497_270, 539_023_160,
    681_219_760, 801_711_600, 382_884_200, 99_800_440, 289_015_170,
    819_964_000, 78_820_480, 931_487_400, 278_237_400, 889_226_500,
    737_915_500, 895_727_100, 287_070_070, 380_898_570, 653_324_540,
    12_101_332, 616_758_300, 821_882_000, 59_459_610, 922_795_240,
    30_350_060, 733_612_300, 988_934_040, 999_256_550, 355_723_380,
    929_226_400, 883_468_750, 851_856_050, 685_694_750, 147_731_350,
    622_594_200, 484_335_450, 180_207_300, 174_068_080, 260_913_580,
    253_144_120, 391_757_300, 211_472_450, 885_916_530, 62_785_340,
    454_779_420, 212_666_330, 926_259_040, 545_836_900, 912_217_200,
    539_718_300, 35_206_992, 428_736_000, 406_912_060, 754_005_000,
    491_570_230, 384_951_000, 520_259_000, 692_683_000, 308_938_800,
    650_798_260, 296_214_520, 860_185_500, 578_113_400, 636_842_370,
    996_207_600, 354_266_900, 818_077_100, 767_899_500, 824_366_450,
    724_235_240, 267_164_400, 565_861_050, 775_707_360, 114_716_610,
    679_496_400, 852_426_100, 120_189_500, 214_022_030, 976_772_700,
    588_052_600, 411_387_200, 864_051_300, 26_697_583, 122_789_870,
    360_876_830, 866_760_000, 82_543_656, 763_165_530, 695_177_200,
    281_119_080, 700_437_370, 437_762_830, 86_626_664, 51_207_580,
    578_745_400, 14_736_370, 825_475_100, 469_100_950, 421_123_060,
];

/// The noise value that `index` draws: the table entry at `index % 100`.
pub open spec fn noise_at(index: int) -> int {
    NOISE@[index % 100] as int
}

/// Every table entry is a fraction below one.
pub proof fn lemma_noise_below_scale(index: int)
    requires
        0 <= index,
    ensures
        0 <= noise_at(index) < NOISE_SCALE,
{
    assert(NOISE@.len() == 100);
    assert(forall|i: int| 0 <= i < 100 ==> NOISE@[i] < NOISE_SCALE);
}

/// Looks up the noise value for `index`, wrapping around the table.
pub fn noise(index: usize) -> (r: u32)
    ensures
        r == noise_at(index as int),
        (r as u64) < NOISE_SCALE,
{
    proof {
        lemma_noise_below_scale(index as int);
    }
    NOISE[index % 100]
}

} // verus!
