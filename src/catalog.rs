use vstd::prelude::*;

use crate::achievement::{Achievement, AchievementType};
use crate::game::{kind_indices, GOLD};
use crate::upgrade::{Upgrade, UpgradeType};

verus! {

/// A passive rate of one gold per second, in units per millisecond.
pub const GOLD_PER_SECOND: u64 = 1_000;

/// The upgrades a new game starts with, none owned: six passive generators,
/// then five click upgrades.
pub open spec fn upgrade_catalog() -> Seq<Upgrade> {
    seq![
        Upgrade {
            name: "Pickaxe",
            description: "Basic mining tool (+0.1 gold/sec)",
            base_cost: 10_000_000,
            cost_multiplier_num: 115,
            cost_multiplier_den: 100,
            base_production: 100,
            owned: 0,
            upgrade_type: UpgradeType::Passive,
        },
        Upgrade {
            name: "Shovel",
            description: "Dig faster (+0.5 gold/sec)",
            base_cost: 50_000_000,
            cost_multiplier_num: 115,
            cost_multiplier_den: 100,
            base_production: 500,
            owned: 0,
            upgrade_type: UpgradeType::Passive,
        },
        Upgrade {
            name: "Drill",
            description: "Mechanical mining (+2.0 gold/sec)",
            base_cost: 250_000_000,
            cost_multiplier_num: 115,
            cost_multiplier_den: 100,
            base_production: 2_000,
            owned: 0,
            upgrade_type: UpgradeType::Passive,
        },
        Upgrade {
            name: "Excavator",
            description: "Heavy machinery (+8.0 gold/sec)",
            base_cost: 1_000_000_000,
            cost_multiplier_num: 115,
            cost_multiplier_den: 100,
            base_production: 8_000,
            owned: 0,
            upgrade_type: UpgradeType::Passive,
        },
        Upgrade {
            name: "Mine Shaft",
            description: "Deep mining operation (+30.0 gold/sec)",
            base_cost: 5_000_000_000,
            cost_multiplier_num: 115,
            cost_multiplier_den: 100,
            base_production: 30_000,
            owned: 0,
            upgrade_type: UpgradeType::Passive,
        },
        Upgrade {
            name: "Gold Factory",
            description: "Automated gold production (+100.0 gold/sec)",
            base_cost: 25_000_000_000,
            cost_multiplier_num: 115,
            cost_multiplier_den: 100,
            base_production: 100_000,
            owned: 0,
            upgrade_type: UpgradeType::Passive,
        },
        Upgrade {
            name: "Strong Arms",
            description: "Better swinging (+1 gold per click)",
            base_cost: 25_000_000,
            cost_multiplier_num: 120,
            cost_multiplier_den: 100,
            base_production: 1_000_000,
            owned: 0,
            upgrade_type: UpgradeType::Click,
        },
        Upgrade {
            name: "Steel Tools",
            description: "Sharper equipment (+2 gold per click)",
            base_cost: 100_000_000,
            cost_multiplier_num: 120,
            cost_multiplier_den: 100,
            base_production: 2_000_000,
            owned: 0,
            upgrade_type: UpgradeType::Click,
        },
        Upgrade {
            name: "Power Gloves",
            description: "Enhanced grip (+5 gold per click)",
            base_cost: 500_000_000,
            cost_multiplier_num: 120,
            cost_multiplier_den: 100,
            base_production: 5_000_000,
            owned: 0,
            upgrade_type: UpgradeType::Click,
        },
        Upgrade {
            name: "Hydraulic Hammer",
            description: "Mechanized clicking (+10 gold per click)",
            base_cost: 2_500_000_000,
            cost_multiplier_num: 120,
            cost_multiplier_den: 100,
            base_production: 10_000_000,
            owned: 0,
            upgrade_type: UpgradeType::Click,
        },
        Upgrade {
            name: "Diamond Drill Bit",
            description: "Ultimate mining power (+25 gold per click)",
            base_cost: 10_000_000_000,
            cost_multiplier_num: 120,
            cost_multiplier_den: 100,
            base_production: 25_000_000,
            owned: 0,
            upgrade_type: UpgradeType::Click,
        },
    ]
}

/// The achievements a new game starts with, none completed.
pub open spec fn achievement_catalog() -> Seq<Achievement> {
    seq![
        Achievement { name: "First Steps", description: "Earn 100 total gold", completed: false, achievement_type: AchievementType::TotalGold(100_000_000) },
        Achievement { name: "Getting Rich", description: "Earn 10,000 total gold", completed: false, achievement_type: AchievementType::TotalGold(10_000_000_000) },
        Achievement { name: "Millionaire", description: "Earn 1,000,000 total gold", completed: false, achievement_type: AchievementType::TotalGold(1_000_000_000_000) },
        Achievement { name: "Passive Income", description: "Reach 10 gold per second", completed: false, achievement_type: AchievementType::GoldPerSecond(10_000) },
        Achievement { name: "Gold Rush", description: "Reach 100 gold per second", completed: false, achievement_type: AchievementType::GoldPerSecond(100_000) },
        Achievement { name: "Click Master", description: "Click 1,000 times", completed: false, achievement_type: AchievementType::TotalClicks(1_000) },
        Achievement { name: "Power Clicker", description: "Reach 50 gold per click", completed: false, achievement_type: AchievementType::ClickPower(50_000_000) },
        Achievement { name: "Upgrade Collector", description: "Purchase 50 upgrades", completed: false, achievement_type: AchievementType::UpgradesPurchased(50) },
    ]
}

/// Every catalog upgrade is usable, the passive tab lists six and the click
/// tab five, and no two upgrades share both name and kind.
pub proof fn lemma_upgrade_catalog_facts()
    ensures
        forall|i: int| 0 <= i < upgrade_catalog().len() ==> (#[trigger] upgrade_catalog()[i]).wf(),
        kind_indices(upgrade_catalog(), UpgradeType::Passive).len() == 6,
        kind_indices(upgrade_catalog(), UpgradeType::Click).len() == 5,
        forall|i: int, j: int|
            0 <= i < j < upgrade_catalog().len() ==> (#[trigger] upgrade_catalog()[i]).name != (#[trigger] upgrade_catalog()[j]).name
                || upgrade_catalog()[i].upgrade_type != upgrade_catalog()[j].upgrade_type,
{
    reveal_strlit("Pickaxe");
    reveal_strlit("Shovel");
    reveal_strlit("Drill");
    reveal_strlit("Excavator");
    reveal_strlit("Mine Shaft");
    reveal_strlit("Gold Factory");
    reveal_strlit("Strong Arms");
    reveal_strlit("Steel Tools");
    reveal_strlit("Power Gloves");
    reveal_strlit("Hydraulic Hammer");
    reveal_strlit("Diamond Drill Bit");
    reveal_with_fuel(kind_indices, 12);
}

/// The fixed list of upgrades.
pub fn upgrades() -> (r: Vec<Upgrade>)
    ensures
        r@ == upgrade_catalog(),
{
    let r = vec![
        Upgrade {
            name: "Pickaxe",
            description: "Basic mining tool (+0.1 gold/sec)",
            base_cost: 10 * GOLD,
            cost_multiplier_num: 115,
            cost_multiplier_den: 100,
            base_production: GOLD_PER_SECOND / 10,
            owned: 0,
            upgrade_type: UpgradeType::Passive,
        },
        Upgrade {
            name: "Shovel",
            description: "Dig faster (+0.5 gold/sec)",
            base_cost: 50 * GOLD,
            cost_multiplier_num: 115,
            cost_multiplier_den: 100,
            base_production: GOLD_PER_SECOND / 2,
            owned: 0,
            upgrade_type: UpgradeType::Passive,
        },
        Upgrade {
            name: "Drill",
            description: "Mechanical mining (+2.0 gold/sec)",
            base_cost: 250 * GOLD,
            cost_multiplier_num: 115,
            cost_multiplier_den: 100,
            base_production: 2 * GOLD_PER_SECOND,
            owned: 0,
            upgrade_type: UpgradeType::Passive,
        },
        Upgrade {
            name: "Excavator",
            description: "Heavy machinery (+8.0 gold/sec)",
            base_cost: 1000 * GOLD,
            cost_multiplier_num: 115,
            cost_multiplier_den: 100,
            base_production: 8 * GOLD_PER_SECOND,
            owned: 0,
            upgrade_type: UpgradeType::Passive,
        },
        Upgrade {
            name: "Mine Shaft",
            description: "Deep mining operation (+30.0 gold/sec)",
            base_cost: 5000 * GOLD,
            cost_multiplier_num: 115,
            cost_multiplier_den: 100,
            base_production: 30 * GOLD_PER_SECOND,
            owned: 0,
            upgrade_type: UpgradeType::Passive,
        },
        Upgrade {
            name: "Gold Factory",
            description: "Automated gold production (+100.0 gold/sec)",
            base_cost: 25000 * GOLD,
            cost_multiplier_num: 115,
            cost_multiplier_den: 100,
            base_production: 100 * GOLD_PER_SECOND,
            owned: 0,
            upgrade_type: UpgradeType::Passive,
        },
        Upgrade {
            name: "Strong Arms",
            description: "Better swinging (+1 gold per click)",
            base_cost: 25 * GOLD,
            cost_multiplier_num: 120,
            cost_multiplier_den: 100,
            base_production: GOLD,
            owned: 0,
            upgrade_type: UpgradeType::Click,
        },
        Upgrade {
            name: "Steel Tools",
            description: "Sharper equipment (+2 gold per click)",
            base_cost: 100 * GOLD,
            cost_multiplier_num: 120,
            cost_multiplier_den: 100,
            base_production: 2 * GOLD,
            owned: 0,
            upgrade_type: UpgradeType::Click,
        },
        Upgrade {
            name: "Power Gloves",
            description: "Enhanced grip (+5 gold per click)",
            base_cost: 500 * GOLD,
            cost_multiplier_num: 120,
            cost_multiplier_den: 100,
            base_production: 5 * GOLD,
            owned: 0,
            upgrade_type: UpgradeType::Click,
        },
        Upgrade {
            name: "Hydraulic Hammer",
            description: "Mechanized clicking (+10 gold per click)",
            base_cost: 2500 * GOLD,
            cost_multiplier_num: 120,
            cost_multiplier_den: 100,
            base_production: 10 * GOLD,
            owned: 0,
            upgrade_type: UpgradeType::Click,
        },
        Upgrade {
            name: "Diamond Drill Bit",
            description: "Ultimate mining power (+25 gold per click)",
            base_cost: 10000 * GOLD,
            cost_multiplier_num: 120,
            cost_multiplier_den: 100,
            base_production: 25 * GOLD,
            owned: 0,
            upgrade_type: UpgradeType::Click,
        },
    ];
    assert(r@ =~= upgrade_catalog());
    r
}

/// The fixed list of achievements.
pub fn achievements() -> (r: Vec<Achievement>)
    ensures
        r@ == achievement_catalog(),
{
    let r = vec![
        Achievement { name: "First Steps", description: "Earn 100 total gold", completed: false, achievement_type: AchievementType::TotalGold(100 * GOLD) },
        Achievement { name: "Getting Rich", description: "Earn 10,000 total gold", completed: false, achievement_type: AchievementType::TotalGold(10_000 * GOLD) },
        Achievement { name: "Millionaire", description: "Earn 1,000,000 total gold", completed: false, achievement_type: AchievementType::TotalGold(1_000_000 * GOLD) },
        Achievement { name: "Passive Income", description: "Reach 10 gold per second", completed: false, achievement_type: AchievementType::GoldPerSecond(10 * GOLD_PER_SECOND) },
        Achievement { name: "Gold Rush", description: "Reach 100 gold per second", completed: false, achievement_type: AchievementType::GoldPerSecond(100 * GOLD_PER_SECOND) },
        Achievement { name: "Click Master", description: "Click 1,000 times", completed: false, achievement_type: AchievementType::TotalClicks(1000) },
        Achievement { name: "Power Clicker", description: "Reach 50 gold per click", completed: false, achievement_type: AchievementType::ClickPower(50 * GOLD) },
        Achievement { name: "Upgrade Collector", description: "Purchase 50 upgrades", completed: false, achievement_type: AchievementType::UpgradesPurchased(50) },
    ];
    assert(r@ =~= achievement_catalog());
    r
}

} // verus!
