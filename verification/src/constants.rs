//! Timing constants of the game (TGM1 values) and the gravity table.

use vstd::prelude::*;
use crate::data::GameMode;

verus! {

/// Lock delay countdown start: N+1 countdown, 30 actual frames.
pub const LOCK_DELAY: u32 = 29;

/// ARE (spawn delay) countdown start: N+1, 30 frames.
pub const SPAWN_DELAY_NORMAL: u32 = 29;

/// Line clear display countdown start: N+1, 41 frames before ARE.
pub const LINE_CLEAR_DELAY: u32 = 40;

/// Frames at the start (and end) of ARE during which DAS is frozen; DAS
/// charges while the ARE countdown is in 1..=25.
pub const ARE_DAS_FROZEN_FRAMES: u32 = 4;

/// Ticks a direction must be held before auto-shift starts.
pub const DAS_CHARGE: u32 = 16;

/// Auto-shift period once charged (every tick).
pub const DAS_REPEAT: u32 = 1;

/// Gravity in 20G mode, and at level 500 and above in Master: 20 rows per
/// tick, in units of G/256.
pub const TWENTY_G: u32 = 5120;

/// Number of rows of the Master gravity table.
pub const MASTER_GRAVITY_ROWS: usize = 30;

/// Master gravity (G/256 per tick) at `level`: the value of the last table
/// row whose starting level `level` reaches.
pub open spec fn master_gravity(level: int) -> int {
    if level >= 500 {
        5120
    } else if level >= 450 {
        768
    } else if level >= 420 {
        1024
    } else if level >= 400 {
        1280
    } else if level >= 360 {
        1024
    } else if level >= 330 {
        768
    } else if level >= 300 {
        512
    } else if level >= 251 {
        256
    } else if level >= 247 {
        224
    } else if level >= 243 {
        192
    } else if level >= 239 {
        160
    } else if level >= 236 {
        128
    } else if level >= 233 {
        96
    } else if level >= 230 {
        64
    } else if level >= 220 {
        32
    } else if level >= 200 {
        4
    } else if level >= 170 {
        144
    } else if level >= 160 {
        128
    } else if level >= 140 {
        112
    } else if level >= 120 {
        96
    } else if level >= 100 {
        80
    } else if level >= 90 {
        64
    } else if level >= 80 {
        48
    } else if level >= 70 {
        32
    } else if level >= 60 {
        16
    } else if level >= 50 {
        12
    } else if level >= 40 {
        10
    } else if level >= 35 {
        8
    } else if level >= 30 {
        6
    } else {
        4
    }
}

/// Starting level of row `i` of the Master gravity table.
pub open spec fn gravity_threshold(i: int) -> int {
    if i == 0 {
        0
    } else if i == 1 {
        30
    } else if i == 2 {
        35
    } else if i == 3 {
        40
    } else if i == 4 {
        50
    } else if i == 5 {
        60
    } else if i == 6 {
        70
    } else if i == 7 {
        80
    } else if i == 8 {
        90
    } else if i == 9 {
        100
    } else if i == 10 {
        120
    } else if i == 11 {
        140
    } else if i == 12 {
        160
    } else if i == 13 {
        170
    } else if i == 14 {
        200
    } else if i == 15 {
        220
    } else if i == 16 {
        230
    } else if i == 17 {
        233
    } else if i == 18 {
        236
    } else if i == 19 {
        239
    } else if i == 20 {
        243
    } else if i == 21 {
        247
    } else if i == 22 {
        251
    } else if i == 23 {
        300
    } else if i == 24 {
        330
    } else if i == 25 {
        360
    } else if i == 26 {
        400
    } else if i == 27 {
        420
    } else if i == 28 {
        450
    } else {
        500
    }
}

/// Gravity (G/256 per tick) of row `i` of the Master gravity table.
pub open spec fn gravity_value(i: int) -> int {
    if i == 0 {
        4
    } else if i == 1 {
        6
    } else if i == 2 {
        8
    } else if i == 3 {
        10
    } else if i == 4 {
        12
    } else if i == 5 {
        16
    } else if i == 6 {
        32
    } else if i == 7 {
        48
    } else if i == 8 {
        64
    } else if i == 9 {
        80
    } else if i == 10 {
        96
    } else if i == 11 {
        112
    } else if i == 12 {
        128
    } else if i == 13 {
        144
    } else if i == 14 {
        4
    } else if i == 15 {
        32
    } else if i == 16 {
        64
    } else if i == 17 {
        96
    } else if i == 18 {
        128
    } else if i == 19 {
        160
    } else if i == 20 {
        192
    } else if i == 21 {
        224
    } else if i == 22 {
        256
    } else if i == 23 {
        512
    } else if i == 24 {
        768
    } else if i == 25 {
        1024
    } else if i == 26 {
        1280
    } else if i == 27 {
        1024
    } else if i == 28 {
        768
    } else {
        5120
    }
}

/// Gravity (G/256 per tick) of a game in `mode` at `level`.
pub open spec fn spec_gravity_g(mode: GameMode, level: int) -> int {
    match mode {
        GameMode::Master => master_gravity(level),
        GameMode::TwentyG => TWENTY_G as int,
    }
}

/// Starting level of table row `i`.
fn threshold_at(i: usize) -> (t: u32)
    requires
        i < MASTER_GRAVITY_ROWS,
    ensures
        t == gravity_threshold(i as int),
{
    match i {
        0 => 0,
        1 => 30,
        2 => 35,
        3 => 40,
        4 => 50,
        5 => 60,
        6 => 70,
        7 => 80,
        8 => 90,
        9 => 100,
        10 => 120,
        11 => 140,
        12 => 160,
        13 => 170,
        14 => 200,
        15 => 220,
        16 => 230,
        17 => 233,
        18 => 236,
        19 => 239,
        20 => 243,
        21 => 247,
        22 => 251,
        23 => 300,
        24 => 330,
        25 => 360,
        26 => 400,
        27 => 420,
        28 => 450,
        _ => 500,
    }
}

/// Gravity of table row `i`.
fn value_at(i: usize) -> (g: u32)
    requires
        i < MASTER_GRAVITY_ROWS,
    ensures
        g == gravity_value(i as int),
{
    match i {
        0 => 4,
        1 => 6,
        2 => 8,
        3 => 10,
        4 => 12,
        5 => 16,
        6 => 32,
        7 => 48,
        8 => 64,
        9 => 80,
        10 => 96,
        11 => 112,
        12 => 128,
        13 => 144,
        14 => 4,
        15 => 32,
        16 => 64,
        17 => 96,
        18 => 128,
        19 => 160,
        20 => 192,
        21 => 224,
        22 => 256,
        23 => 512,
        24 => 768,
        25 => 1024,
        26 => 1280,
        27 => 1024,
        28 => 768,
        _ => 5120,
    }
}

/// The table rows start at strictly rising levels, from 0; `master_gravity`
/// is the value of the last row whose starting level is reached.
proof fn lemma_gravity_table(level: int, i: int)
    requires
        0 <= level,
        0 <= i < MASTER_GRAVITY_ROWS,
        gravity_threshold(i) <= level,
        i + 1 < MASTER_GRAVITY_ROWS ==> level < gravity_threshold(i + 1),
    ensures
        master_gravity(level) == gravity_value(i),
{
}

/// Gravity in G/256 per tick for a game in `mode` at `level`: Master reads
/// the gravity table (the last row whose starting level is reached), 20G is
/// always 5120.
pub fn gravity_g(game_mode: GameMode, level: u32) -> (g: u32)
    ensures
        g == spec_gravity_g(game_mode, level as int),
        g <= TWENTY_G,
{
    match game_mode {
        GameMode::Master => {
            let mut i: usize = MASTER_GRAVITY_ROWS - 1;
            while threshold_at(i) > level
                invariant
                    i < MASTER_GRAVITY_ROWS,
                    i + 1 < MASTER_GRAVITY_ROWS ==> level < gravity_threshold(i as int + 1),
                decreases i,
            {
                i = i - 1;
            }
            proof {
                lemma_gravity_table(level as int, i as int);
            }
            value_at(i)
        },
        GameMode::TwentyG => TWENTY_G,
    }
}

} // verus!
