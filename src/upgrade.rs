use vstd::arithmetic::power::pow;
use vstd::prelude::*;

verus! {

/// Largest amount a `u64` field can hold; amounts saturate there.
pub const U64_MAX: u64 = 0xffff_ffff_ffff_ffff;

/// Whether an upgrade feeds the passive rate or the reward of a click.
#[derive(Clone, Copy, Debug, PartialEq, Eq, Structural)]
pub enum UpgradeType {
    Passive,
    Click,
}

/// A purchasable generator.
///
/// The cost multiplier is the fraction `cost_multiplier_num / cost_multiplier_den`.
/// For a `Passive` upgrade `base_production` is units per millisecond for
/// each owned copy; for a `Click` upgrade it is units added to every click.
#[derive(Clone, Copy, Debug)]
pub struct Upgrade {
    pub name: &'static str,
    pub description: &'static str,
    pub base_cost: u64,
    pub cost_multiplier_num: u64,
    pub cost_multiplier_den: u64,
    pub base_production: u64,
    pub owned: u64,
    pub upgrade_type: UpgradeType,
}

/// Cost of the next copy after `n` copies were bought: the base cost, then
/// multiplied by `num / den` once per copy, each step rounded up to a unit
/// (so rounding never hides the growth).
pub open spec fn cost_at(base: nat, num: nat, den: nat, n: nat) -> nat
    decreases n,
{
    if n == 0 {
        base
    } else {
        ((cost_at(base, num, den, (n - 1) as nat) * num + den - 1) / (den as int)) as nat
    }
}

/// What `n` copies bought one after the other cost in all.
pub open spec fn cumulative_cost(base: nat, num: nat, den: nat, n: nat) -> nat
    decreases n,
{
    if n == 0 {
        0
    } else {
        cumulative_cost(base, num, den, (n - 1) as nat) + cost_at(base, num, den, (n - 1) as nat)
    }
}

/// `x` clipped to what a `u64` holds.
pub open spec fn cap(x: int) -> u64 {
    if x > U64_MAX {
        U64_MAX
    } else if x < 0 {
        0
    } else {
        x as u64
    }
}

/// One rounded-up step from `x`: at least the exact product, less than one
/// unit above it, and above `x` unless `x` is zero.
proof fn lemma_step_bounds(x: nat, num: nat, den: nat)
    requires
        0 < den < num,
    ensures
        ({
            let y = ((x * num + den - 1) / (den as int)) as nat;
            &&& y * den >= x * num
            &&& y * den < x * num + den
            &&& y >= x
            &&& x > 0 ==> y > x
        }),
{
    let a = x * num + den - 1;
    assert(x * num >= 0) by (nonlinear_arith);
    vstd::arithmetic::div_mod::lemma_fundamental_div_mod(a, den as int);
    let q = a / den as int;
    let r = a % den as int;
    assert(q * den == a - r) by (nonlinear_arith)
        requires
            a == den * q + r,
    ;
    assert(q >= 0) by (nonlinear_arith)
        requires
            q * den == a - r,
            a - r >= x * num,
            x * num >= 0,
            den > 0,
    ;
    assert(x * num >= x * den) by (nonlinear_arith)
        requires
            den < num,
    ;
    assert(q >= x) by (nonlinear_arith)
        requires
            q * den >= x * den,
            den > 0,
    ;
    if x > 0 {
        assert(x * num > x * den) by (nonlinear_arith)
            requires
                den < num,
                x > 0,
        ;
        assert(q > x) by (nonlinear_arith)
            requires
                q * den > x * den,
                den > 0,
        ;
    }
}

/// With a multiplier above one the cost never falls as copies are bought.
pub proof fn lemma_cost_monotone(base: nat, num: nat, den: nat, m: nat, n: nat)
    requires
        0 < den < num,
        m <= n,
    ensures
        cost_at(base, num, den, m) <= cost_at(base, num, den, n),
    decreases n - m,
{
    if m < n {
        lemma_cost_monotone(base, num, den, m, (n - 1) as nat);
        lemma_step_bounds(cost_at(base, num, den, (n - 1) as nat), num, den);
    }
}

/// With a positive base cost and a multiplier above one, every copy bought
/// makes the next one strictly dearer.
pub proof fn lemma_cost_strictly_increasing(base: nat, num: nat, den: nat, m: nat, n: nat)
    requires
        0 < den < num,
        base > 0,
        m < n,
    ensures
        cost_at(base, num, den, m) < cost_at(base, num, den, n),
    decreases n - m,
{
    lemma_cost_monotone(base, num, den, 0, (n - 1) as nat);
    lemma_step_bounds(cost_at(base, num, den, (n - 1) as nat), num, den);
    if m < n - 1 {
        lemma_cost_strictly_increasing(base, num, den, m, (n - 1) as nat);
    }
}

proof fn lemma_pow_le(den: nat, num: nat, n: nat)
    requires
        den <= num,
    ensures
        0 <= pow(den as int, n) <= pow(num as int, n),
    decreases n,
{
    vstd::arithmetic::power::lemma_pow0(den as int);
    vstd::arithmetic::power::lemma_pow0(num as int);
    if n > 0 {
        lemma_pow_le(den, num, (n - 1) as nat);
        vstd::arithmetic::power::lemma_pow_adds(den as int, (n - 1) as nat, 1);
        vstd::arithmetic::power::lemma_pow_adds(num as int, (n - 1) as nat, 1);
        vstd::arithmetic::power::lemma_pow1(den as int);
        vstd::arithmetic::power::lemma_pow1(num as int);
        let (dk, nk) = (pow(den as int, (n - 1) as nat), pow(num as int, (n - 1) as nat));
        assert(dk * den <= nk * num && dk * den >= 0) by (nonlinear_arith)
            requires
                0 <= dk <= nk,
                0 <= den <= num,
        ;
    }
}

/// The cost after `n` copies is `base * (num / den)^n` up to rounding: each
/// step is the previous cost times the multiplier, rounded up; the result is
/// never below the unrounded value `base * num^n / den^n` and at most `n`
/// units (each scaled by the multiplier) above it.
pub proof fn lemma_cost_formula(base: nat, num: nat, den: nat, n: nat)
    requires
        0 < den < num,
    ensures
        cost_at(base, num, den, n + 1) == ((cost_at(base, num, den, n) * num + den - 1) / (den as int)) as nat,
        base * pow(num as int, n) <= cost_at(base, num, den, n) * pow(den as int, n),
        cost_at(base, num, den, n) * pow(den as int, n) <= (base + n) * pow(num as int, n),
    decreases n,
{
    vstd::arithmetic::power::lemma_pow0(den as int);
    vstd::arithmetic::power::lemma_pow0(num as int);
    if n > 0 {
        let k = (n - 1) as nat;
        lemma_cost_formula(base, num, den, k);
        let c = cost_at(base, num, den, k) as int;
        let y = cost_at(base, num, den, n) as int;
        lemma_step_bounds(c as nat, num, den);
        let dk = pow(den as int, k);
        let nk = pow(num as int, k);
        lemma_pow_le(den, num, k);
        vstd::arithmetic::power::lemma_pow_adds(den as int, k, 1);
        vstd::arithmetic::power::lemma_pow_adds(num as int, k, 1);
        vstd::arithmetic::power::lemma_pow1(den as int);
        vstd::arithmetic::power::lemma_pow1(num as int);
        let (b, u, d) = (base as int, num as int, den as int);
        assert(pow(den as int, n) == dk * d);
        assert(pow(num as int, n) == nk * u);
        assert(b * (nk * u) <= y * (dk * d)) by (nonlinear_arith)
            requires
                b * nk <= c * dk,
                y * d >= c * u,
                dk >= 0,
                u > 0,
        {
            assert(y * (dk * d) == (y * d) * dk);
            assert((y * d) * dk >= (c * u) * dk);
            assert((c * u) * dk == (c * dk) * u);
            assert((c * dk) * u >= (b * nk) * u);
        }
        assert(y * (dk * d) <= (b + k + 1) * (nk * u)) by (nonlinear_arith)
            requires
                c * dk <= (b + k) * nk,
                y * d < c * u + d,
                0 <= dk <= nk,
                0 < d < u,
        {
            assert(y * (dk * d) == (y * d) * dk);
            assert((y * d) * dk <= (c * u + d) * dk);
            assert((c * u + d) * dk == (c * dk) * u + dk * d);
            assert((c * dk) * u <= ((b + k) * nk) * u);
            assert(dk * d <= nk * u);
        }
    }
}

/// The spend on the first `n` copies lies between the geometric sum
/// `base * (m^n - 1) / (m - 1)` of the unrounded costs, with `m = num / den`,
/// and the same sum with `base + n` in place of `base`; written here with
/// all sides multiplied by `(num - den) * den^n`.
pub proof fn lemma_cumulative_cost_geometric(base: nat, num: nat, den: nat, n: nat)
    requires
        0 < den < num,
    ensures
        base * den * (pow(num as int, n) - pow(den as int, n))
            <= cumulative_cost(base, num, den, n) * (num - den) * pow(den as int, n),
        cumulative_cost(base, num, den, n) * (num - den) * pow(den as int, n)
            <= (base + n) * den * (pow(num as int, n) - pow(den as int, n)),
{
    lemma_cumulative_cost_bounds(base, num, den, n, base + n);
}

proof fn lemma_cumulative_cost_bounds(base: nat, num: nat, den: nat, n: nat, top: nat)
    requires
        0 < den < num,
        base + n <= top,
    ensures
        base * den * (pow(num as int, n) - pow(den as int, n))
            <= cumulative_cost(base, num, den, n) * (num - den) * pow(den as int, n),
        cumulative_cost(base, num, den, n) * (num - den) * pow(den as int, n)
            <= top * den * (pow(num as int, n) - pow(den as int, n)),
    decreases n,
{
    vstd::arithmetic::power::lemma_pow0(den as int);
    vstd::arithmetic::power::lemma_pow0(num as int);
    if n > 0 {
        let k = (n - 1) as nat;
        lemma_cumulative_cost_bounds(base, num, den, k, top);
        lemma_cost_formula(base, num, den, k);
        let sk = cumulative_cost(base, num, den, k) as int;
        let ck = cost_at(base, num, den, k) as int;
        let dk = pow(den as int, k);
        let nk = pow(num as int, k);
        lemma_pow_le(den, num, k);
        vstd::arithmetic::power::lemma_pow_adds(den as int, k, 1);
        vstd::arithmetic::power::lemma_pow_adds(num as int, k, 1);
        vstd::arithmetic::power::lemma_pow1(den as int);
        vstd::arithmetic::power::lemma_pow1(num as int);
        let (b, t, u, d) = (base as int, top as int, num as int, den as int);
        assert(pow(den as int, n) == dk * d);
        assert(pow(num as int, n) == nk * u);
        assert(ck * dk <= t * nk) by (nonlinear_arith)
            requires
                ck * dk <= (b + k) * nk,
                b + k <= t,
                nk >= 0,
        ;
        assert((sk + ck) * (u - d) * (dk * d) == (sk * (u - d) * dk) * d + (ck * dk) * ((u - d) * d))
            by (nonlinear_arith);
        assert(b * d * (nk * u - dk * d) == (b * d * (nk - dk)) * d + (b * nk) * ((u - d) * d))
            by (nonlinear_arith);
        assert(t * d * (nk * u - dk * d) == (t * d * (nk - dk)) * d + (t * nk) * ((u - d) * d))
            by (nonlinear_arith);
        assert((sk * (u - d) * dk) * d <= (t * d * (nk - dk)) * d) by (nonlinear_arith)
            requires
                sk * (u - d) * dk <= t * d * (nk - dk),
                d > 0,
        ;
        assert((ck * dk) * ((u - d) * d) <= (t * nk) * ((u - d) * d)) by (nonlinear_arith)
            requires
                ck * dk <= t * nk,
                0 < d < u,
        ;
        assert((sk * (u - d) * dk) * d >= (b * d * (nk - dk)) * d) by (nonlinear_arith)
            requires
                sk * (u - d) * dk >= b * d * (nk - dk),
                d > 0,
        ;
        assert((ck * dk) * ((u - d) * d) >= (b * nk) * ((u - d) * d)) by (nonlinear_arith)
            requires
                ck * dk >= b * nk,
                0 < d < u,
        ;
        assert(cumulative_cost(base, num, den, n) == sk + ck);
        assert(cumulative_cost(base, num, den, n) * (num - den) * pow(den as int, n)
            == (sk + ck) * (u - d) * (dk * d));
        assert(base * den * (pow(num as int, n) - pow(den as int, n)) == b * d * (nk * u - dk * d));
        assert(top * den * (pow(num as int, n) - pow(den as int, n)) == t * d * (nk * u - dk * d));
    } else {
        assert(pow(num as int, n) - pow(den as int, n) == 0);
        assert(cumulative_cost(base, num, den, n) == 0);
    }
}

/// One call of `purchase`: `after` has one copy more than `before`, and
/// `cost` is what the next copy of `before` cost.
pub open spec fn purchased(before: Upgrade, after: Upgrade, cost: u64) -> bool {
    &&& before.owned < U64_MAX
    &&& cost == cap(before.cost_spec() as int)
    &&& after == (Upgrade { owned: (before.owned + 1) as u64, ..before })
}

/// Sum of a sequence of amounts.
pub open spec fn total(s: Seq<u64>) -> int
    decreases s.len(),
{
    if s.len() == 0 {
        0
    } else {
        total(s.drop_last()) + s.last()
    }
}

proof fn lemma_purchase_prefix(states: Seq<Upgrade>, costs: Seq<u64>, i: nat)
    requires
        states.len() == costs.len() + 1,
        states[0].wf(),
        states[0].owned == 0,
        forall|k: int| 0 <= k < costs.len() ==> purchased(#[trigger] states[k], states[k + 1], costs[k]),
        i <= costs.len(),
        i > 0 ==> cost_at(
            states[0].base_cost as nat,
            states[0].cost_multiplier_num as nat,
            states[0].cost_multiplier_den as nat,
            (i - 1) as nat,
        ) <= U64_MAX,
    ensures
        states[i as int].owned == i,
        states[i as int].base_cost == states[0].base_cost,
        states[i as int].cost_multiplier_num == states[0].cost_multiplier_num,
        states[i as int].cost_multiplier_den == states[0].cost_multiplier_den,
        total(costs.take(i as int)) == cumulative_cost(
            states[0].base_cost as nat,
            states[0].cost_multiplier_num as nat,
            states[0].cost_multiplier_den as nat,
            i,
        ),
    decreases i,
{
    let u = states[0];
    let (b, num, den) = (u.base_cost as nat, u.cost_multiplier_num as nat, u.cost_multiplier_den as nat);
    if i == 0 {
        assert(costs.take(0) =~= Seq::<u64>::empty());
    } else {
        let k = (i - 1) as nat;
        if k > 0 {
            lemma_cost_monotone(b, num, den, (k - 1) as nat, k);
        }
        lemma_purchase_prefix(states, costs, k);
        assert(purchased(states[k as int], states[i as int], costs[k as int]));
        assert(costs.take(i as int).drop_last() =~= costs.take(k as int));
    }
}

/// Calling `purchase` `n` times from no copies leaves `n` copies and spends
/// the costs of copies `0` to `n - 1` together. The statement covers runs in
/// which the last copy's cost fits a `u64` (costs are saturated beyond it).
pub proof fn lemma_repeated_purchase(states: Seq<Upgrade>, costs: Seq<u64>)
    requires
        states.len() == costs.len() + 1,
        states[0].wf(),
        states[0].owned == 0,
        forall|k: int| 0 <= k < costs.len() ==> purchased(#[trigger] states[k], states[k + 1], costs[k]),
        costs.len() > 0 ==> cost_at(
            states[0].base_cost as nat,
            states[0].cost_multiplier_num as nat,
            states[0].cost_multiplier_den as nat,
            (costs.len() - 1) as nat,
        ) <= U64_MAX,
    ensures
        states.last().owned == costs.len(),
        total(costs) == cumulative_cost(
            states[0].base_cost as nat,
            states[0].cost_multiplier_num as nat,
            states[0].cost_multiplier_den as nat,
            costs.len() as nat,
        ),
{
    lemma_purchase_prefix(states, costs, costs.len() as nat);
    assert(costs.take(costs.len() as int) =~= costs);
}

impl Upgrade {
    /// The economic parameters are usable: a positive base cost and a
    /// multiplier above one.
    pub open spec fn wf(&self) -> bool {
        &&& self.base_cost > 0
        &&& self.cost_multiplier_den > 0
        &&& self.cost_multiplier_num > self.cost_multiplier_den
    }

    /// Exact cost of the next copy.
    pub open spec fn cost_spec(&self) -> nat {
        cost_at(
            self.base_cost as nat,
            self.cost_multiplier_num as nat,
            self.cost_multiplier_den as nat,
            self.owned as nat,
        )
    }

    /// Exact production of all owned copies.
    pub open spec fn production_spec(&self) -> nat {
        self.base_production as nat * self.owned as nat
    }

    pub fn new(
        name: &'static str,
        description: &'static str,
        base_cost: u64,
        cost_multiplier_num: u64,
        cost_multiplier_den: u64,
        base_production: u64,
        upgrade_type: UpgradeType,
    ) -> (r: Self)
        requires
            base_cost > 0,
            0 < cost_multiplier_den < cost_multiplier_num,
        ensures
            r.wf(),
            r.name == name,
            r.description == description,
            r.base_cost == base_cost,
            r.cost_multiplier_num == cost_multiplier_num,
            r.cost_multiplier_den == cost_multiplier_den,
            r.base_production == base_production,
            r.owned == 0,
            r.upgrade_type == upgrade_type,
    {
        Upgrade {
            name,
            description,
            base_cost,
            cost_multiplier_num,
            cost_multiplier_den,
            base_production,
            owned: 0,
            upgrade_type,
        }
    }

    /// The cost of the next copy, or `None` where it exceeds what a `u64` holds.
    pub fn exact_cost(&self) -> (r: Option<u64>)
        requires
            self.wf(),
        ensures
            r == (if self.cost_spec() <= U64_MAX {
                Some(self.cost_spec() as u64)
            } else {
                None::<u64>
            }),
    {
        let num = self.cost_multiplier_num;
        let den = self.cost_multiplier_den;
        let ghost b = self.base_cost as nat;
        let mut c: u64 = self.base_cost;
        let mut k: u64 = 0;
        while k < self.owned
            invariant
                self.wf(),
                num == self.cost_multiplier_num,
                den == self.cost_multiplier_den,
                b == self.base_cost,
                k <= self.owned,
                c == cost_at(b, num as nat, den as nat, k as nat),
            decreases self.owned - k,
        {
            assert((c as u128) * (num as u128) + (den as u128) <= 0xffff_ffff_ffff_ffff_ffff_ffff_ffff_ffffu128)
                by (nonlinear_arith)
                requires
                    c <= U64_MAX,
                    num <= U64_MAX,
                    den <= U64_MAX,
            ;
            let next: u128 = ((c as u128) * (num as u128) + (den as u128) - 1) / (den as u128);
            k = k + 1;
            assert(cost_at(b, num as nat, den as nat, k as nat) == next);
            if next > U64_MAX as u128 {
                proof {
                    lemma_cost_monotone(b, num as nat, den as nat, k as nat, self.owned as nat);
                }
                return None;
            }
            c = next as u64;
        }
        Some(c)
    }

    /// The cost of the next copy, saturated at `u64::MAX`.
    pub fn current_cost(&self) -> (r: u64)
        requires
            self.wf(),
        ensures
            r == cap(self.cost_spec() as int),
    {
        match self.exact_cost() {
            Some(c) => c,
            None => U64_MAX,
        }
    }

    /// What the owned copies produce together, saturated at `u64::MAX`.
    pub fn current_production(&self) -> (r: u64)
        ensures
            r == cap(self.production_spec() as int),
    {
        assert((self.base_production as u128) * (self.owned as u128)
            <= 0xffff_ffff_ffff_ffff_ffff_ffff_ffff_ffffu128) by (nonlinear_arith)
            requires
                self.base_production <= U64_MAX,
                self.owned <= U64_MAX,
        ;
        let p: u128 = (self.base_production as u128) * (self.owned as u128);
        assert(p == self.production_spec()) by (nonlinear_arith)
            requires
                p == (self.base_production as u128) * (self.owned as u128),
                self.base_production <= U64_MAX,
                self.owned <= U64_MAX,
        ;
        if p > U64_MAX as u128 {
            U64_MAX
        } else {
            p as u64
        }
    }

    /// Whether a balance of `gold` covers the exact cost of the next copy.
    pub fn can_afford(&self, gold: u64) -> (r: bool)
        requires
            self.wf(),
        ensures
            r == (gold as nat >= self.cost_spec()),
    {
        match self.exact_cost() {
            Some(c) => gold >= c,
            None => false,
        }
    }

    /// Takes one more copy and returns the cost that applied before it, which
    /// the caller debits. It does not check that the cost can be paid.
    pub fn purchase(&mut self) -> (r: u64)
        requires
            old(self).wf(),
            old(self).owned < U64_MAX,
        ensures
            purchased(*old(self), *final(self), r),
            final(self).wf(),
    {
        let cost = self.current_cost();
        self.owned = self.owned + 1;
        cost
    }
}

} // verus!
