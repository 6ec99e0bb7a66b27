use vstd::prelude::*;

verus! {

/// The live aggregates that achievements are measured against.
///
/// Gold amounts are in units, the passive rate in units per millisecond.
#[derive(Clone, Copy, Debug, PartialEq, Eq, Structural)]
pub struct Metrics {
    pub total_gold_earned: u64,
    pub gold_per_second: u64,
    pub total_clicks: u64,
    pub click_power: u64,
    pub total_upgrades_purchased: u64,
}

/// Which aggregate an achievement watches, with the target it must reach.
#[derive(Clone, Copy, Debug, PartialEq, Eq, Structural)]
pub enum AchievementType {
    TotalGold(u64),
    GoldPerSecond(u64),
    TotalClicks(u64),
    ClickPower(u64),
    UpgradesPurchased(u64),
}

/// A milestone with a completion latch.
#[derive(Clone, Copy, Debug)]
pub struct Achievement {
    pub name: &'static str,
    pub description: &'static str,
    pub completed: bool,
    pub achievement_type: AchievementType,
}

impl AchievementType {
    pub open spec fn target_spec(self) -> u64 {
        match self {
            AchievementType::TotalGold(t) => t,
            AchievementType::GoldPerSecond(t) => t,
            AchievementType::TotalClicks(t) => t,
            AchievementType::ClickPower(t) => t,
            AchievementType::UpgradesPurchased(t) => t,
        }
    }

    /// The aggregate of `m` that this kind watches.
    pub open spec fn metric_spec(self, m: Metrics) -> u64 {
        match self {
            AchievementType::TotalGold(_) => m.total_gold_earned,
            AchievementType::GoldPerSecond(_) => m.gold_per_second,
            AchievementType::TotalClicks(_) => m.total_clicks,
            AchievementType::ClickPower(_) => m.click_power,
            AchievementType::UpgradesPurchased(_) => m.total_upgrades_purchased,
        }
    }

    pub open spec fn reached(self, m: Metrics) -> bool {
        self.metric_spec(m) >= self.target_spec()
    }

    pub fn target(&self) -> (r: u64)
        ensures
            r == self.target_spec(),
    {
        match *self {
            AchievementType::TotalGold(t) => t,
            AchievementType::GoldPerSecond(t) => t,
            AchievementType::TotalClicks(t) => t,
            AchievementType::ClickPower(t) => t,
            AchievementType::UpgradesPurchased(t) => t,
        }
    }

    /// The current value of the watched aggregate, shown as progress.
    pub fn current_value(&self, m: &Metrics) -> (r: u64)
        ensures
            r == self.metric_spec(*m),
    {
        match *self {
            AchievementType::TotalGold(_) => m.total_gold_earned,
            AchievementType::GoldPerSecond(_) => m.gold_per_second,
            AchievementType::TotalClicks(_) => m.total_clicks,
            AchievementType::ClickPower(_) => m.click_power,
            AchievementType::UpgradesPurchased(_) => m.total_upgrades_purchased,
        }
    }
}

/// `after` is `before` with the latch set where it was set or the target is
/// now reached; nothing else changes.
pub open spec fn evaluated_one(before: Achievement, after: Achievement, m: Metrics) -> bool {
    after == (Achievement {
        completed: before.completed || before.achievement_type.reached(m),
        ..before
    })
}

/// `evaluated_one` for every achievement of a list.
pub open spec fn evaluated(before: Seq<Achievement>, after: Seq<Achievement>, m: Metrics) -> bool {
    &&& after.len() == before.len()
    &&& forall|i: int| 0 <= i < before.len() ==> evaluated_one(#[trigger] before[i], after[i], m)
}

impl Achievement {
    pub fn new(name: &'static str, description: &'static str, achievement_type: AchievementType) -> (r: Self)
        ensures
            r.name == name,
            r.description == description,
            !r.completed,
            r.achievement_type == achievement_type,
    {
        Achievement { name, description, completed: false, achievement_type }
    }

    pub fn target(&self) -> (r: u64)
        ensures
            r == self.achievement_type.target_spec(),
    {
        self.achievement_type.target()
    }

    /// Sets the latch if it is not set and the watched aggregate has reached
    /// the target.
    pub fn evaluate(&mut self, m: &Metrics)
        ensures
            evaluated_one(*old(self), *final(self), *m),
    {
        if !self.completed && self.achievement_type.current_value(m) >= self.achievement_type.target() {
            self.completed = true;
        }
    }
}

/// Evaluates every achievement of the list against the same aggregates.
pub fn evaluate_all(achievements: &mut Vec<Achievement>, m: &Metrics)
    ensures
        evaluated(old(achievements)@, final(achievements)@, *m),
{
    let ghost before = achievements@;
    let n = achievements.len();
    let mut i: usize = 0;
    while i < n
        invariant
            n == before.len(),
            achievements@.len() == n,
            i <= n,
            forall|j: int| 0 <= j < i ==> evaluated_one(#[trigger] before[j], achievements@[j], *m),
            forall|j: int| i <= j < n ==> #[trigger] achievements@[j] == before[j],
        decreases n - i,
    {
        let mut a = achievements[i];
        a.evaluate(m);
        achievements.set(i, a);
        i = i + 1;
    }
}

} // verus!
