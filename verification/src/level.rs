//! The two levels of the game. Both use the same maze, start the player at
//! (1.5, 6.5) blocks and scatter six notes of money; the first level fills
//! the mall with debt collectors that stand still, the second with police
//! officers that walk the corridors. Spots are in tenths of a block.

use vstd::prelude::*;
use crate::collectable::{Collectable, count_key, lemma_count_uniform};
use crate::enemy::{EnemyType, TurnPreference};

verus! {

/// A level of the game.
#[derive(Clone, Copy, PartialEq, Eq, Structural, Debug)]
pub enum Level {
    /// Level 1: debt collectors.
    Debt,
    /// Level 2: police officers.
    Police,
}

/// Where an enemy starts, how it turns, what it is, and its speed in pixels per second.
#[derive(Clone, Copy, PartialEq, Eq, Structural, Debug)]
pub struct EnemySpawn {
    pub x_tenths: u32,
    pub y_tenths: u32,
    pub turn_preference: TurnPreference,
    pub enemy_type: EnemyType,
    pub speed: u32,
}

/// Everything a level starts with.
pub struct LevelSetup {
    pub enemies: Vec<EnemySpawn>,
    pub collectables: Vec<Collectable>,
    pub max_money: u32,
    pub start_x_tenths: u32,
    pub start_y_tenths: u32,
}

/// The walking speed of police officers.
pub const POLICE_SPEED: u32 = 250;

/// The money needed to unlock the bag, in both levels.
pub const LEVEL_MONEY: u32 = 6;

/// The spot of the bag once it appears.
pub const BAG_X_TENTHS: u32 = 80;

/// The spot of the bag once it appears.
pub const BAG_Y_TENTHS: u32 = 75;

pub open spec fn debt(x: u32, y: u32, t: TurnPreference) -> EnemySpawn {
    EnemySpawn { x_tenths: x, y_tenths: y, turn_preference: t, enemy_type: EnemyType::Debt, speed: 0 }
}

pub open spec fn police(x: u32, y: u32, t: TurnPreference) -> EnemySpawn {
    EnemySpawn {
        x_tenths: x,
        y_tenths: y,
        turn_preference: t,
        enemy_type: EnemyType::Police,
        speed: POLICE_SPEED,
    }
}

/// The enemies of a level.
pub open spec fn level_enemies(level: Level) -> Seq<EnemySpawn> {
    let r = TurnPreference::Right;
    let l = TurnPreference::Left;
    match level {
        Level::Debt => seq![
            debt(25, 55, r),
            debt(58, 77, l),
            debt(16, 38, r),
            debt(30, 17, l),
            debt(75, 15, r),
            debt(115, 24, l),
            debt(106, 24, r),
            debt(56, 32, l),
            debt(45, 56, r),
            debt(75, 55, l),
            debt(106, 60, r),
        ],
        Level::Police => seq![
            police(15, 15, r),
            police(75, 15, l),
            police(15, 55, r),
            police(75, 55, l),
            police(15, 55, r),
            police(105, 65, l),
        ],
    }
}

pub open spec fn money(x: u32, y: u32) -> Collectable {
    Collectable { x_tenths: x, y_tenths: y, texture_key: 'm' }
}

/// The money of a level; both levels place it on the same six spots.
pub open spec fn level_collectables(level: Level) -> Seq<Collectable> {
    seq![money(15, 15), money(65, 55), money(75, 35), money(80, 75), money(115, 70), money(15, 50)]
}

fn debt_spawn(x: u32, y: u32, t: TurnPreference) -> (s: EnemySpawn)
    ensures
        s == debt(x, y, t),
{
    EnemySpawn { x_tenths: x, y_tenths: y, turn_preference: t, enemy_type: EnemyType::Debt, speed: 0 }
}

fn police_spawn(x: u32, y: u32, t: TurnPreference) -> (s: EnemySpawn)
    ensures
        s == police(x, y, t),
{
    EnemySpawn {
        x_tenths: x,
        y_tenths: y,
        turn_preference: t,
        enemy_type: EnemyType::Police,
        speed: POLICE_SPEED,
    }
}

fn money_at(x: u32, y: u32) -> (c: Collectable)
    ensures
        c == money(x, y),
{
    Collectable { x_tenths: x, y_tenths: y, texture_key: 'm' }
}

/// Everything `level` starts with. The money to collect is exactly the money
/// lying in the level, so every level can be won.
pub fn level_setup(level: Level) -> (s: LevelSetup)
    ensures
        s.enemies@ == level_enemies(level),
        s.collectables@ == level_collectables(level),
        s.max_money == LEVEL_MONEY,
        s.start_x_tenths == 15,
        s.start_y_tenths == 65,
        count_key(s.collectables@, 'm') == s.max_money,
        count_key(s.collectables@, 'b') == 0,
{
    let r = TurnPreference::Right;
    let l = TurnPreference::Left;
    let enemies = match level {
        Level::Debt => vec![
            debt_spawn(25, 55, r),
            debt_spawn(58, 77, l),
            debt_spawn(16, 38, r),
            debt_spawn(30, 17, l),
            debt_spawn(75, 15, r),
            debt_spawn(115, 24, l),
            debt_spawn(106, 24, r),
            debt_spawn(56, 32, l),
            debt_spawn(45, 56, r),
            debt_spawn(75, 55, l),
            debt_spawn(106, 60, r),
        ],
        Level::Police => vec![
            police_spawn(15, 15, r),
            police_spawn(75, 15, l),
            police_spawn(15, 55, r),
            police_spawn(75, 55, l),
            police_spawn(15, 55, r),
            police_spawn(105, 65, l),
        ],
    };
    let collectables = vec![
        money_at(15, 15),
        money_at(65, 55),
        money_at(75, 35),
        money_at(80, 75),
        money_at(115, 70),
        money_at(15, 50),
    ];
    proof {
        assert(enemies@ =~= level_enemies(level));
        assert(collectables@ =~= level_collectables(level));
        lemma_level_money(level);
    }
    LevelSetup { enemies, collectables, max_money: LEVEL_MONEY, start_x_tenths: 15, start_y_tenths: 65 }
}

/// Each level holds six notes of money and no bag; its debt collectors all
/// stand still and its police officers all walk at the police speed.
pub proof fn lemma_level_money(level: Level)
    ensures
        count_key(level_collectables(level), 'm') == LEVEL_MONEY,
        count_key(level_collectables(level), 'b') == 0,
        forall|i: int|
            0 <= i < level_enemies(level).len() ==> {
                let e = #[trigger] level_enemies(level)[i];
                match level {
                    Level::Debt => e.enemy_type == EnemyType::Debt && e.speed == 0,
                    Level::Police => e.enemy_type == EnemyType::Police && e.speed == POLICE_SPEED,
                }
            },
{
    let items = level_collectables(level);
    assert(forall|i: int| 0 <= i < items.len() ==> #[trigger] items[i].texture_key == 'm');
    lemma_count_uniform(items, 'm', 'b');
}

} // verus!
