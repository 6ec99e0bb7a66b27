use vstd::prelude::*;

use crate::catalog;
use crate::achievement::{evaluate_all, evaluated, Achievement, Metrics};
use crate::upgrade::{cap, Upgrade, UpgradeType, U64_MAX};

verus! {

/// One gold piece, in units.
pub const GOLD: u64 = 1_000_000;

/// Reward of a click before any click upgrade.
pub const BASE_CLICK_POWER: u64 = GOLD;

/// Minimum time between two effective clicks, in milliseconds.
pub const CLICK_COOLDOWN_MS: u64 = 500;

/// The list a player is looking at.
#[derive(Clone, Copy, Debug, PartialEq, Eq, Structural)]
pub enum Tab {
    Passive,
    Click,
    Achievements,
}

/// The whole mutable state of a game session.
pub struct GameState {
    /// Spendable balance, in units.
    pub gold: u64,
    /// Passive rate, in units per millisecond; recomputed by `update` only.
    pub gold_per_second: u64,
    /// Reward of one click, in units; recomputed by `update` only.
    pub click_power: u64,
    /// All gold ever earned; never debited.
    pub total_gold_earned: u64,
    pub total_upgrades_purchased: u64,
    pub upgrades: Vec<Upgrade>,
    pub achievements: Vec<Achievement>,
    /// Position in the list of the current tab.
    pub selected_upgrade: usize,
    pub current_tab: Tab,
    /// Time of the last `update`, in milliseconds.
    pub last_update: u64,
    pub total_clicks: u64,
    pub show_help: bool,
    /// Time of the last effective click; `None` before the first.
    pub last_click: Option<u64>,
    /// Minimum time between two effective clicks, in milliseconds.
    pub click_cooldown: u64,
}

/// Master positions of the upgrades of kind `k`, in order: the list that a
/// tab of that kind shows.
pub open spec fn kind_indices(s: Seq<Upgrade>, k: UpgradeType) -> Seq<int>
    decreases s.len(),
{
    if s.len() == 0 {
        Seq::empty()
    } else if s.last().upgrade_type == k {
        kind_indices(s.drop_last(), k).push(s.len() - 1)
    } else {
        kind_indices(s.drop_last(), k)
    }
}

/// Exact production of all upgrades of kind `k`.
pub open spec fn kind_production(s: Seq<Upgrade>, k: UpgradeType) -> nat
    decreases s.len(),
{
    if s.len() == 0 {
        0
    } else if s.last().upgrade_type == k {
        kind_production(s.drop_last(), k) + s.last().production_spec()
    } else {
        kind_production(s.drop_last(), k)
    }
}

/// Milliseconds from `from` to `to`, zero if the clock went back.
pub open spec fn elapsed(from: u64, to: u64) -> nat {
    if to >= from {
        (to - from) as nat
    } else {
        0
    }
}

pub open spec fn tab_kind(t: Tab) -> UpgradeType {
    if t == Tab::Click {
        UpgradeType::Click
    } else {
        UpgradeType::Passive
    }
}

proof fn lemma_kind_indices_bounds(s: Seq<Upgrade>, k: UpgradeType)
    ensures
        forall|j: int| 0 <= j < kind_indices(s, k).len() ==> {
            let i = #[trigger] kind_indices(s, k)[j];
            0 <= i < s.len() && s[i].upgrade_type == k
        },
        kind_indices(s, k).len() <= s.len(),
    decreases s.len(),
{
    if s.len() > 0 {
        lemma_kind_indices_bounds(s.drop_last(), k);
    }
}

proof fn lemma_kind_indices_prefix(s: Seq<Upgrade>, k: UpgradeType, i: int)
    requires
        0 <= i <= s.len(),
    ensures
        kind_indices(s.take(i), k).len() <= kind_indices(s, k).len(),
        forall|j: int| 0 <= j < kind_indices(s.take(i), k).len()
            ==> #[trigger] kind_indices(s.take(i), k)[j] == kind_indices(s, k)[j],
    decreases s.len() - i,
{
    if i < s.len() {
        lemma_kind_indices_prefix(s, k, i + 1);
        assert(s.take(i + 1).drop_last() =~= s.take(i));
        let a = kind_indices(s.take(i), k);
        let b = kind_indices(s.take(i + 1), k);
        assert(b == a || b == a.push(i));
        assert forall|j: int| 0 <= j < a.len() implies #[trigger] a[j] == kind_indices(s, k)[j] by {
            assert(a[j] == b[j]);
        }
    } else {
        assert(s.take(i) =~= s);
    }
}

proof fn lemma_kind_indices_update(s: Seq<Upgrade>, i: int, u: Upgrade, k: UpgradeType)
    requires
        0 <= i < s.len(),
        u.upgrade_type == s[i].upgrade_type,
    ensures
        kind_indices(s.update(i, u), k) == kind_indices(s, k),
    decreases s.len(),
{
    let t = s.update(i, u);
    if i < s.len() - 1 {
        assert(t.drop_last() =~= s.drop_last().update(i, u));
        lemma_kind_indices_update(s.drop_last(), i, u, k);
    } else {
        assert(t.drop_last() =~= s.drop_last());
    }
}

/// Counts the upgrades of kind `k`.
fn count_of_kind(upgrades: &Vec<Upgrade>, k: UpgradeType) -> (r: usize)
    ensures
        r == kind_indices(upgrades@, k).len(),
{
    let mut n: usize = 0;
    let mut i: usize = 0;
    while i < upgrades.len()
        invariant
            i <= upgrades@.len(),
            n == kind_indices(upgrades@.take(i as int), k).len(),
            n <= i,
        decreases upgrades.len() - i,
    {
        assert(upgrades@.take(i + 1).drop_last() =~= upgrades@.take(i as int));
        if upgrades[i].upgrade_type == k {
            n = n + 1;
        }
        i = i + 1;
    }
    assert(upgrades@.take(i as int) =~= upgrades@);
    n
}

/// Master position of the upgrade at position `j` of the list of kind `k`.
fn position_of_kind(upgrades: &Vec<Upgrade>, k: UpgradeType, j: usize) -> (r: usize)
    requires
        j < kind_indices(upgrades@, k).len(),
    ensures
        r == kind_indices(upgrades@, k)[j as int],
        r < upgrades@.len(),
{
    proof {
        lemma_kind_indices_bounds(upgrades@, k);
    }
    let mut n: usize = 0;
    let mut i: usize = 0;
    while i < upgrades.len()
        invariant
            i <= upgrades@.len(),
            j < kind_indices(upgrades@, k).len(),
            n == kind_indices(upgrades@.take(i as int), k).len(),
            n <= j,
        decreases upgrades.len() - i,
    {
        proof {
            lemma_kind_indices_prefix(upgrades@, k, i + 1);
        }
        assert(upgrades@.take(i + 1).drop_last() =~= upgrades@.take(i as int));
        if upgrades[i].upgrade_type == k {
            if n == j {
                assert(kind_indices(upgrades@.take(i + 1), k)[j as int] == i);
                return i;
            }
            n = n + 1;
        }
        i = i + 1;
    }
    proof {
        assert(upgrades@.take(i as int) =~= upgrades@);
    }
    0
}

/// Saturated production of all upgrades of kind `k`.
fn production_of_kind(upgrades: &Vec<Upgrade>, k: UpgradeType) -> (r: u64)
    ensures
        r == cap(kind_production(upgrades@, k) as int),
{
    let mut acc: u64 = 0;
    let mut i: usize = 0;
    while i < upgrades.len()
        invariant
            i <= upgrades@.len(),
            acc == cap(kind_production(upgrades@.take(i as int), k) as int),
        decreases upgrades.len() - i,
    {
        assert(upgrades@.take(i + 1).drop_last() =~= upgrades@.take(i as int));
        if upgrades[i].upgrade_type == k {
            acc = acc.saturating_add(upgrades[i].current_production());
        }
        i = i + 1;
    }
    assert(upgrades@.take(i as int) =~= upgrades@);
    acc
}

/// Two clicks after a state that is past the cooldown: if the second comes
/// sooner than the cooldown after the first, only the first is rewarded and
/// counted; if it comes at least the cooldown later, both are.
pub proof fn lemma_click_cooldown(s0: GameState, s1: GameState, s2: GameState, t1: u64, t2: u64)
    requires
        GameState::clicked(s0, s1, t1),
        GameState::clicked(s1, s2, t2),
        s0.click_ready(t1),
        t1 <= t2,
    ensures
        s1.gold == cap(s0.gold + s0.click_power),
        s1.total_gold_earned == cap(s0.total_gold_earned + s0.click_power),
        s1.total_clicks == cap(s0.total_clicks + 1),
        t2 - t1 < s0.click_cooldown ==> s2 == s1,
        t2 - t1 >= s0.click_cooldown ==> {
            &&& s2.gold == cap(s1.gold + s0.click_power)
            &&& s2.total_gold_earned == cap(s1.total_gold_earned + s0.click_power)
            &&& s2.total_clicks == cap(s1.total_clicks + 1)
        },
{
}

/// `s` is a game as it starts: both lists as the catalog gives them, no
/// gold, rates at their base values, counters at zero, the passive tab shown
/// with the first entry selected, no click made yet, the clock at zero.
pub open spec fn is_new_game(s: GameState) -> bool {
    &&& s.gold == 0
    &&& s.gold_per_second == 0
    &&& s.click_power == BASE_CLICK_POWER
    &&& s.total_gold_earned == 0
    &&& s.total_upgrades_purchased == 0
    &&& s.upgrades@ == catalog::upgrade_catalog()
    &&& s.achievements@ == catalog::achievement_catalog()
    &&& s.selected_upgrade == 0
    &&& s.current_tab == Tab::Passive
    &&& s.last_update == 0
    &&& s.total_clicks == 0
    &&& !s.show_help
    &&& s.last_click.is_none()
    &&& s.click_cooldown == CLICK_COOLDOWN_MS
}

impl Default for GameState {
    /// A new session at time zero.
    fn default() -> (r: Self)
        ensures
            is_new_game(r),
            r.wf(),
            r.tab_len() == 6,
            kind_indices(r.upgrades@, UpgradeType::Click).len() == 5,
    {
        proof {
            catalog::lemma_upgrade_catalog_facts();
        }
        GameState {
            gold: 0,
            gold_per_second: 0,
            click_power: BASE_CLICK_POWER,
            total_gold_earned: 0,
            total_upgrades_purchased: 0,
            upgrades: catalog::upgrades(),
            achievements: catalog::achievements(),
            selected_upgrade: 0,
            current_tab: Tab::Passive,
            last_update: 0,
            total_clicks: 0,
            show_help: false,
            last_click: None,
            click_cooldown: CLICK_COOLDOWN_MS,
        }
    }
}

impl GameState {
    /// Every upgrade is usable, and the selection points into the list of
    /// the current tab (or is zero).
    pub open spec fn wf(&self) -> bool {
        &&& forall|i: int| 0 <= i < self.upgrades@.len() ==> (#[trigger] self.upgrades@[i]).wf()
        &&& (self.selected_upgrade == 0 || self.selected_upgrade < self.tab_len())
    }

    /// Length of the list that the current tab shows.
    pub open spec fn tab_len(&self) -> nat {
        if self.current_tab == Tab::Achievements {
            self.achievements@.len()
        } else {
            kind_indices(self.upgrades@, tab_kind(self.current_tab)).len()
        }
    }

    pub open spec fn metrics_spec(&self) -> Metrics {
        Metrics {
            total_gold_earned: self.total_gold_earned,
            gold_per_second: self.gold_per_second,
            total_clicks: self.total_clicks,
            click_power: self.click_power,
            total_upgrades_purchased: self.total_upgrades_purchased,
        }
    }

    /// Whether a click at `now` is past the cooldown.
    pub open spec fn click_ready(&self, now: u64) -> bool {
        match self.last_click {
            None => true,
            Some(t) => elapsed(t, now) >= self.click_cooldown,
        }
    }

    /// Gold that a tick at `now` earns, at the freshly computed rate `rate`.
    pub open spec fn tick_earnings(&self, rate: u64, now: u64) -> u64 {
        cap(rate * elapsed(self.last_update, now))
    }

    /// `new` is `old` after a tick at `now`: the rates recomputed from the
    /// upgrades, the elapsed time's earnings added, achievements evaluated
    /// against the new aggregates, nothing else changed.
    pub open spec fn ticked(old: GameState, new: GameState, now: u64) -> bool {
        let rate = cap(kind_production(old.upgrades@, UpgradeType::Passive) as int);
        let power = cap(BASE_CLICK_POWER + kind_production(old.upgrades@, UpgradeType::Click));
        let earned = old.tick_earnings(rate, now);
        &&& new == (GameState {
            gold: cap(old.gold + earned),
            gold_per_second: rate,
            click_power: power,
            total_gold_earned: cap(old.total_gold_earned + earned),
            last_update: now,
            achievements: new.achievements,
            ..old
        })
        &&& evaluated(old.achievements@, new.achievements@, new.metrics_spec())
    }

    /// `new` is `old` after a click at `now`: rewarded if past the cooldown,
    /// otherwise unchanged.
    pub open spec fn clicked(old: GameState, new: GameState, now: u64) -> bool {
        if old.click_ready(now) {
            new == (GameState {
                gold: cap(old.gold + old.click_power),
                total_gold_earned: cap(old.total_gold_earned + old.click_power),
                total_clicks: cap(old.total_clicks + 1),
                last_click: Some(now),
                ..old
            })
        } else {
            new == old
        }
    }

    /// `new` is `old` after buying the selected upgrade: where the tab lists
    /// upgrades, the selection is in range, its cost is covered and the
    /// counters have room for one more, that
    /// upgrade (found at its master position) gains a copy, its cost is
    /// debited and the purchase counted; otherwise nothing changes.
    pub open spec fn bought(old: GameState, new: GameState) -> bool {
        let k = tab_kind(old.current_tab);
        let idx = kind_indices(old.upgrades@, k);
        let sel = old.selected_upgrade as int;
        if old.current_tab != Tab::Achievements && sel < idx.len()
            && old.upgrades@[idx[sel]].cost_spec() <= old.gold
            && old.upgrades@[idx[sel]].owned < U64_MAX
            && old.total_upgrades_purchased < U64_MAX {
            let u = old.upgrades@[idx[sel]];
            &&& new.upgrades@ == old.upgrades@.update(idx[sel], Upgrade { owned: (u.owned + 1) as u64, ..u })
            &&& new == (GameState {
                gold: (old.gold - u.cost_spec()) as u64,
                total_upgrades_purchased: (old.total_upgrades_purchased + 1) as u64,
                upgrades: new.upgrades,
                ..old
            })
        } else {
            new == old
        }
    }

    /// The live aggregates.
    pub fn metrics(&self) -> (r: Metrics)
        ensures
            r == self.metrics_spec(),
    {
        Metrics {
            total_gold_earned: self.total_gold_earned,
            gold_per_second: self.gold_per_second,
            total_clicks: self.total_clicks,
            click_power: self.click_power,
            total_upgrades_purchased: self.total_upgrades_purchased,
        }
    }

    /// One tick of the simulation at time `now` (milliseconds).
    pub fn update(&mut self, now: u64)
        requires
            old(self).wf(),
        ensures
            Self::ticked(*old(self), *final(self), now),
            final(self).wf(),
            final(self).gold >= old(self).gold,
            final(self).total_gold_earned >= old(self).total_gold_earned,
            forall|i: int|
                0 <= i < old(self).achievements@.len() && (#[trigger] old(self).achievements@[i]).completed
                    ==> final(self).achievements@[i].completed,
    {
        let delta = now.saturating_sub(self.last_update);
        self.last_update = now;
        self.gold_per_second = production_of_kind(&self.upgrades, UpgradeType::Passive);
        self.click_power = BASE_CLICK_POWER.saturating_add(production_of_kind(&self.upgrades, UpgradeType::Click));
        assert((self.gold_per_second as u128) * (delta as u128) <= 0xffff_ffff_ffff_ffff_ffff_ffff_ffff_ffffu128)
            by (nonlinear_arith)
            requires
                self.gold_per_second <= U64_MAX,
                delta <= U64_MAX,
        ;
        let product: u128 = (self.gold_per_second as u128) * (delta as u128);
        let earned: u64 = if product > U64_MAX as u128 {
            U64_MAX
        } else {
            product as u64
        };
        self.gold = self.gold.saturating_add(earned);
        self.total_gold_earned = self.total_gold_earned.saturating_add(earned);
        let m = self.metrics();
        evaluate_all(&mut self.achievements, &m);
    }

    /// A click at time `now`: past the cooldown it adds the click power to
    /// the balance and to the total earned and counts the click; during the
    /// cooldown it does nothing.
    pub fn click_for_gold(&mut self, now: u64)
        requires
            old(self).wf(),
        ensures
            Self::clicked(*old(self), *final(self), now),
            final(self).wf(),
            final(self).gold >= old(self).gold,
            final(self).total_gold_earned >= old(self).total_gold_earned,
    {
        let ready = match self.last_click {
            None => true,
            Some(t) => now.saturating_sub(t) >= self.click_cooldown,
        };
        if ready {
            self.gold = self.gold.saturating_add(self.click_power);
            self.total_gold_earned = self.total_gold_earned.saturating_add(self.click_power);
            self.total_clicks = self.total_clicks.saturating_add(1);
            self.last_click = Some(now);
        }
    }

    /// The upgrades that the current tab lists, in order; none on the
    /// achievements tab.
    pub fn get_current_upgrades(&self) -> (r: Vec<Upgrade>)
        ensures
            self.current_tab == Tab::Achievements ==> r@.len() == 0,
            self.current_tab != Tab::Achievements ==> {
                let idx = kind_indices(self.upgrades@, tab_kind(self.current_tab));
                &&& r@.len() == idx.len()
                &&& forall|j: int| 0 <= j < idx.len() ==> #[trigger] r@[j] == self.upgrades@[idx[j]]
            },
    {
        let mut r: Vec<Upgrade> = Vec::new();
        if self.current_tab == Tab::Achievements {
            return r;
        }
        let k = if self.current_tab == Tab::Click {
            UpgradeType::Click
        } else {
            UpgradeType::Passive
        };
        let ghost s = self.upgrades@;
        let mut i: usize = 0;
        while i < self.upgrades.len()
            invariant
                s == self.upgrades@,
                k == tab_kind(self.current_tab),
                i <= s.len(),
                r@.len() == kind_indices(s.take(i as int), k).len(),
                forall|j: int| 0 <= j < r@.len() ==> #[trigger] r@[j] == s[kind_indices(s.take(i as int), k)[j]],
            decreases s.len() - i,
        {
            assert(s.take(i + 1).drop_last() =~= s.take(i as int));
            if self.upgrades[i].upgrade_type == k {
                r.push(self.upgrades[i]);
            }
            i = i + 1;
        }
        assert(s.take(i as int) =~= s);
        r
    }

    /// Buys one copy of the selected upgrade if its cost is covered.
    pub fn buy_selected(&mut self)
        requires
            old(self).wf(),
        ensures
            Self::bought(*old(self), *final(self)),
            final(self).wf(),
            final(self).total_gold_earned == old(self).total_gold_earned,
    {
        if self.current_tab == Tab::Achievements {
            return;
        }
        let k = if self.current_tab == Tab::Click {
            UpgradeType::Click
        } else {
            UpgradeType::Passive
        };
        let count = count_of_kind(&self.upgrades, k);
        if self.selected_upgrade >= count {
            return;
        }
        let i = position_of_kind(&self.upgrades, k, self.selected_upgrade);
        let mut u = self.upgrades[i];
        if u.can_afford(self.gold) && u.owned < U64_MAX && self.total_upgrades_purchased < U64_MAX {
            let ghost before = self.upgrades@;
            let cost = u.purchase();
            self.upgrades.set(i, u);
            self.gold = self.gold - cost;
            self.total_upgrades_purchased = self.total_upgrades_purchased + 1;
            proof {
                lemma_kind_indices_bounds(before, k);
                lemma_kind_indices_update(before, i as int, u, UpgradeType::Passive);
                lemma_kind_indices_update(before, i as int, u, UpgradeType::Click);
                assert(forall|j: int| 0 <= j < self.upgrades@.len() ==> #[trigger] self.upgrades@[j] == before[j] || j == i);
            }
        }
    }

    /// Length of the list that the current tab shows.
    pub fn current_list_len(&self) -> (r: usize)
        ensures
            r == self.tab_len(),
    {
        match self.current_tab {
            Tab::Passive => count_of_kind(&self.upgrades, UpgradeType::Passive),
            Tab::Click => count_of_kind(&self.upgrades, UpgradeType::Click),
            Tab::Achievements => self.achievements.len(),
        }
    }

    /// Moves the selection down one place, stopping at the last entry.
    pub fn select_next(&mut self)
        requires
            old(self).wf(),
        ensures
            *final(self) == (GameState { selected_upgrade: final(self).selected_upgrade, ..*old(self) }),
            final(self).selected_upgrade == if old(self).selected_upgrade + 1 < old(self).tab_len() {
                old(self).selected_upgrade + 1
            } else {
                old(self).selected_upgrade as int
            },
            final(self).wf(),
    {
        let max_index = self.current_list_len();
        if self.selected_upgrade < max_index.saturating_sub(1) {
            self.selected_upgrade = self.selected_upgrade + 1;
        }
    }

    /// Moves the selection up one place, stopping at the first entry.
    pub fn select_previous(&mut self)
        requires
            old(self).wf(),
        ensures
            *final(self) == (GameState {
                selected_upgrade: if old(self).selected_upgrade > 0 {
                    (old(self).selected_upgrade - 1) as usize
                } else {
                    0
                },
                ..*old(self)
            }),
            final(self).wf(),
    {
        if self.selected_upgrade > 0 {
            self.selected_upgrade = self.selected_upgrade - 1;
        }
    }

    /// Shows another tab; the selection goes back to the top only when the
    /// tab actually changes.
    pub fn switch_tab(&mut self, tab: Tab)
        requires
            old(self).wf(),
        ensures
            old(self).current_tab == tab ==> *final(self) == *old(self),
            old(self).current_tab != tab ==> *final(self) == (GameState {
                current_tab: tab,
                selected_upgrade: 0,
                ..*old(self)
            }),
            final(self).wf(),
    {
        if self.current_tab != tab {
            self.current_tab = tab;
            self.selected_upgrade = 0;
        }
    }
}

} // verus!
