//! Live-particle accounting: how many sparks, trail bits and flashes are
//! alive, the caps that throttle spawning under heavy load, and how much a
//! new burst is thinned out as the load grows.
use vstd::prelude::*;

verus! {

/// Spark cap on native targets.
pub const NATIVE_MAX_SPARKS: u32 = 2800;
/// Trail-bit cap on native targets.
pub const NATIVE_MAX_TRAILS: u32 = 1400;
/// Spark cap in the browser build.
pub const WEB_MAX_SPARKS: u32 = 1600;
/// Trail-bit cap in the browser build.
pub const WEB_MAX_TRAILS: u32 = 900;
/// Flash cap on every target.
pub const MAX_FLASHES: u32 = 24;

/// The three kinds of short-lived particle that the budget counts.
#[derive(Clone, Copy, PartialEq, Eq, Structural, Debug)]
pub enum Particle {
    Spark,
    Trail,
    Flash,
}

/// Mathematical picture of a budget: live counts and their caps.
pub struct BudgetModel {
    pub sparks: nat,
    pub trails: nat,
    pub flashes: nat,
    pub max_sparks: nat,
    pub max_trails: nat,
    pub max_flashes: nat,
}

impl BudgetModel {
    pub open spec fn count(self, p: Particle) -> nat {
        match p {
            Particle::Spark => self.sparks,
            Particle::Trail => self.trails,
            Particle::Flash => self.flashes,
        }
    }

    pub open spec fn limit(self, p: Particle) -> nat {
        match p {
            Particle::Spark => self.max_sparks,
            Particle::Trail => self.max_trails,
            Particle::Flash => self.max_flashes,
        }
    }

    /// The same budget with the count of `p` replaced by `c`.
    pub open spec fn with_count(self, p: Particle, c: nat) -> BudgetModel {
        match p {
            Particle::Spark => BudgetModel { sparks: c, ..self },
            Particle::Trail => BudgetModel { trails: c, ..self },
            Particle::Flash => BudgetModel { flashes: c, ..self },
        }
    }

    /// Every count is within its cap, and the caps are positive.
    pub open spec fn within_limits(self) -> bool {
        &&& 0 < self.max_sparks <= u32::MAX
        &&& 0 < self.max_trails <= u32::MAX
        &&& 0 < self.max_flashes <= u32::MAX
        &&& self.sparks <= self.max_sparks
        &&& self.trails <= self.max_trails
        &&& self.flashes <= self.max_flashes
    }

    pub open spec fn can_spawn(self, p: Particle) -> bool {
        self.count(p) < self.limit(p)
    }

    /// Spawning a particle of kind `p`: counted when under the cap,
    /// refused (budget unchanged) at the cap.
    pub open spec fn spawned(self, p: Particle) -> BudgetModel {
        if self.can_spawn(p) {
            self.with_count(p, self.count(p) + 1)
        } else {
            self
        }
    }

    /// A particle of kind `p` dying; the count never goes below zero.
    pub open spec fn released(self, p: Particle) -> BudgetModel {
        if self.count(p) == 0 {
            self
        } else {
            self.with_count(p, (self.count(p) - 1) as nat)
        }
    }

    /// The load has reached `tenths`/10 of a cap, for sparks or for trails.
    pub open spec fn load_reaches(self, tenths: nat) -> bool {
        ||| self.sparks * 10 >= tenths * self.max_sparks
        ||| self.trails * 10 >= tenths * self.max_trails
    }

    /// Percentage of a burst's nominal star count that may be spawned.
    pub open spec fn burst_scale_percent(self) -> nat {
        if self.load_reaches(9) {
            35
        } else if self.load_reaches(7) {
            55
        } else if self.load_reaches(5) {
            75
        } else if self.load_reaches(3) {
            90
        } else {
            100
        }
    }
}

/// `n` stars thinned to `percent` percent, rounded down, but at least one.
pub open spec fn scaled_count(n: nat, percent: nat) -> nat {
    let s = n * percent / 100;
    if s < 1 {
        1
    } else {
        s
    }
}

/// Tracks live particle counts so that spawning can be throttled under heavy load.
pub struct ParticleBudget {
    sparks: u32,
    trails: u32,
    flashes: u32,
    max_sparks: u32,
    max_trails: u32,
    max_flashes: u32,
}

impl View for ParticleBudget {
    type V = BudgetModel;

    closed spec fn view(&self) -> BudgetModel {
        BudgetModel {
            sparks: self.sparks as nat,
            trails: self.trails as nat,
            flashes: self.flashes as nat,
            max_sparks: self.max_sparks as nat,
            max_trails: self.max_trails as nat,
            max_flashes: self.max_flashes as nat,
        }
    }
}

impl ParticleBudget {
    #[verifier::type_invariant]
    closed spec fn inv(self) -> bool {
        self@.within_limits()
    }

    fn with_caps(max_sparks: u32, max_trails: u32, max_flashes: u32) -> (b: Self)
        requires
            max_sparks > 0,
            max_trails > 0,
            max_flashes > 0,
        ensures
            b@ == (BudgetModel {
                sparks: 0,
                trails: 0,
                flashes: 0,
                max_sparks: max_sparks as nat,
                max_trails: max_trails as nat,
                max_flashes: max_flashes as nat,
            }),
    {
        ParticleBudget { sparks: 0, trails: 0, flashes: 0, max_sparks, max_trails, max_flashes }
    }

    /// An empty budget with the native caps.
    pub fn new() -> (b: Self)
        ensures
            b@ == (BudgetModel {
                sparks: 0,
                trails: 0,
                flashes: 0,
                max_sparks: NATIVE_MAX_SPARKS as nat,
                max_trails: NATIVE_MAX_TRAILS as nat,
                max_flashes: MAX_FLASHES as nat,
            }),
    {
        Self::with_caps(NATIVE_MAX_SPARKS, NATIVE_MAX_TRAILS, MAX_FLASHES)
    }

    /// An empty budget with the smaller caps of the browser build.
    pub fn for_web() -> (b: Self)
        ensures
            b@ == (BudgetModel {
                sparks: 0,
                trails: 0,
                flashes: 0,
                max_sparks: WEB_MAX_SPARKS as nat,
                max_trails: WEB_MAX_TRAILS as nat,
                max_flashes: MAX_FLASHES as nat,
            }),
    {
        Self::with_caps(WEB_MAX_SPARKS, WEB_MAX_TRAILS, MAX_FLASHES)
    }

    pub fn sparks(&self) -> (r: u32)
        ensures
            r == self@.sparks,
    {
        self.sparks
    }

    pub fn trails(&self) -> (r: u32)
        ensures
            r == self@.trails,
    {
        self.trails
    }

    pub fn flashes(&self) -> (r: u32)
        ensures
            r == self@.flashes,
    {
        self.flashes
    }

    pub fn can_spawn_spark(&self) -> (r: bool)
        ensures
            r == self@.can_spawn(Particle::Spark),
            self@.within_limits(),
    {
        proof {
            use_type_invariant(self);
        }
        self.sparks < self.max_sparks
    }

    pub fn can_spawn_trail(&self) -> (r: bool)
        ensures
            r == self@.can_spawn(Particle::Trail),
            self@.within_limits(),
    {
        proof {
            use_type_invariant(self);
        }
        self.trails < self.max_trails
    }

    pub fn can_spawn_flash(&self) -> (r: bool)
        ensures
            r == self@.can_spawn(Particle::Flash),
            self@.within_limits(),
    {
        proof {
            use_type_invariant(self);
        }
        self.flashes < self.max_flashes
    }

    /// Counts a new spark if the cap allows it; returns whether it may be spawned.
    pub fn try_spawn_spark(&mut self) -> (r: bool)
        ensures
            r == old(self)@.can_spawn(Particle::Spark),
            final(self)@ == old(self)@.spawned(Particle::Spark),
            final(self)@.within_limits(),
    {
        proof {
            use_type_invariant(&*self);
        }
        if !self.can_spawn_spark() {
            return false;
        }
        self.sparks = self.sparks + 1;
        true
    }

    /// Counts a new trail bit if the cap allows it; returns whether it may be spawned.
    pub fn try_spawn_trail(&mut self) -> (r: bool)
        ensures
            r == old(self)@.can_spawn(Particle::Trail),
            final(self)@ == old(self)@.spawned(Particle::Trail),
            final(self)@.within_limits(),
    {
        proof {
            use_type_invariant(&*self);
        }
        if !self.can_spawn_trail() {
            return false;
        }
        self.trails = self.trails + 1;
        true
    }

    /// Counts a new flash if the cap allows it; returns whether it may be spawned.
    pub fn try_spawn_flash(&mut self) -> (r: bool)
        ensures
            r == old(self)@.can_spawn(Particle::Flash),
            final(self)@ == old(self)@.spawned(Particle::Flash),
            final(self)@.within_limits(),
    {
        proof {
            use_type_invariant(&*self);
        }
        if !self.can_spawn_flash() {
            return false;
        }
        self.flashes = self.flashes + 1;
        true
    }

    /// A spark has died.
    pub fn release_spark(&mut self)
        ensures
            final(self)@ == old(self)@.released(Particle::Spark),
            final(self)@.within_limits(),
    {
        proof {
            use_type_invariant(&*self);
        }
        self.sparks = self.sparks.saturating_sub(1);
    }

    /// A trail bit has died.
    pub fn release_trail(&mut self)
        ensures
            final(self)@ == old(self)@.released(Particle::Trail),
            final(self)@.within_limits(),
    {
        proof {
            use_type_invariant(&*self);
        }
        self.trails = self.trails.saturating_sub(1);
    }

    /// A flash has faded out.
    pub fn release_flash(&mut self)
        ensures
            final(self)@ == old(self)@.released(Particle::Flash),
            final(self)@.within_limits(),
    {
        proof {
            use_type_invariant(&*self);
        }
        self.flashes = self.flashes.saturating_sub(1);
    }

    fn load_reaches(&self, tenths: u64) -> (r: bool)
        requires
            tenths <= 10,
        ensures
            r == self@.load_reaches(tenths as nat),
    {
        let s = (self.sparks as u64) * 10;
        let t = (self.trails as u64) * 10;
        assert(tenths * self.max_sparks <= 10 * u32::MAX) by (nonlinear_arith)
            requires
                tenths <= 10,
                self.max_sparks <= u32::MAX,
        ;
        assert(tenths * self.max_trails <= 10 * u32::MAX) by (nonlinear_arith)
            requires
                tenths <= 10,
                self.max_trails <= u32::MAX,
        ;
        s >= tenths * (self.max_sparks as u64) || t >= tenths * (self.max_trails as u64)
    }

    /// Share of a burst, in percent, that may be spawned at the current load:
    /// 35 from 90% load, 55 from 70%, 75 from 50%, 90 from 30%, else 100.
    /// The load is the larger of the spark and trail fill ratios.
    pub fn burst_scale_percent(&self) -> (r: u32)
        ensures
            r == self@.burst_scale_percent(),
            self@.within_limits(),
    {
        proof {
            use_type_invariant(self);
        }
        if self.load_reaches(9) {
            35
        } else if self.load_reaches(7) {
            55
        } else if self.load_reaches(5) {
            75
        } else if self.load_reaches(3) {
            90
        } else {
            100
        }
    }
}

impl Default for ParticleBudget {
    fn default() -> (b: Self)
        ensures
            b@ == (BudgetModel {
                sparks: 0,
                trails: 0,
                flashes: 0,
                max_sparks: NATIVE_MAX_SPARKS as nat,
                max_trails: NATIVE_MAX_TRAILS as nat,
                max_flashes: MAX_FLASHES as nat,
            }),
    {
        Self::new()
    }
}

/// Thins a burst of `n` stars to the share that the budget's load allows,
/// rounding down but never below one star.
pub fn scale_burst_count(n: u32, budget: &ParticleBudget) -> (r: u32)
    ensures
        r == scaled_count(n as nat, budget@.burst_scale_percent()),
{
    let pct = budget.burst_scale_percent();
    assert((n as u64) * (pct as u64) <= 100 * (u32::MAX as u64)) by (nonlinear_arith)
        requires
            pct <= 100,
    ;
    let s = (n as u64) * (pct as u64) / 100;
    assert(s <= n) by (nonlinear_arith)
        requires
            pct <= 100,
            s == (n as u64) * (pct as u64) / 100,
    ;
    if s < 1 {
        1
    } else {
        s as u32
    }
}

/// The budget after `k` spawn attempts of kind `p`.
pub open spec fn spawned_times(m: BudgetModel, p: Particle, k: nat) -> BudgetModel
    decreases k,
{
    if k == 0 {
        m
    } else {
        spawned_times(m, p, (k - 1) as nat).spawned(p)
    }
}

/// Spawn attempts are counted until the cap and refused beyond it: after
/// `k` attempts the count is the smaller of the old count plus `k` and the cap.
pub proof fn law_spawns_saturate_at_cap(m: BudgetModel, p: Particle, k: nat)
    requires
        m.within_limits(),
    ensures
        spawned_times(m, p, k).count(p) == if m.count(p) + k <= m.limit(p) {
            m.count(p) + k
        } else {
            m.limit(p)
        },
        spawned_times(m, p, k).within_limits(),
        spawned_times(m, p, k).limit(p) == m.limit(p),
    decreases k,
{
    if k > 0 {
        law_spawns_saturate_at_cap(m, p, (k - 1) as nat);
    }
}

/// Every budget operation keeps the counts within their caps.
pub proof fn law_operations_keep_limits(m: BudgetModel, p: Particle)
    requires
        m.within_limits(),
    ensures
        m.spawned(p).within_limits(),
        m.released(p).within_limits(),
{
}

/// Spawning a particle and letting it die again leaves the budget as it was.
pub proof fn law_spawn_then_release(m: BudgetModel, p: Particle)
    requires
        m.within_limits(),
        m.can_spawn(p),
    ensures
        m.spawned(p).released(p) == m,
{
}

/// At the cap a spawn is refused and changes nothing; the other kinds'
/// counts are never touched by a spawn or a release.
pub proof fn law_kinds_are_independent(m: BudgetModel, p: Particle, q: Particle)
    requires
        p != q,
    ensures
        m.spawned(p).count(q) == m.count(q),
        m.released(p).count(q) == m.count(q),
        m.spawned(p).limit(q) == m.limit(q),
        !m.can_spawn(p) ==> m.spawned(p) == m,
{
}

/// A busier budget never lets a burst grow: the scale share is
/// non-increasing in both live counts.
pub proof fn law_scale_shrinks_with_load(a: BudgetModel, b: BudgetModel)
    requires
        a.max_sparks == b.max_sparks,
        a.max_trails == b.max_trails,
        a.sparks <= b.sparks,
        a.trails <= b.trails,
    ensures
        b.burst_scale_percent() <= a.burst_scale_percent(),
{
}

/// A thinned burst has at least one star and never more than it started with.
pub proof fn law_scaled_count_bounds(n: nat, percent: nat)
    requires
        1 <= n,
        percent <= 100,
    ensures
        1 <= scaled_count(n, percent) <= n,
{
    assert(n * percent / 100 <= n) by (nonlinear_arith)
        requires
            percent <= 100,
    ;
}

/// The burst share follows the load tiers: the load is the larger of the
/// spark and trail fill ratios, and from 90% load 35% of a burst is
/// spawned, from 70% 55%, from 50% 75%, from 30% 90%, and below 30% all of it.
pub proof fn law_burst_scale_tiers(m: BudgetModel)
    ensures
        (m.sparks * 10 >= 9 * m.max_sparks || m.trails * 10 >= 9 * m.max_trails)
            ==> m.burst_scale_percent() == 35,
        (m.sparks * 10 >= 7 * m.max_sparks || m.trails * 10 >= 7 * m.max_trails)
            ==> m.burst_scale_percent() <= 55,
        (m.sparks * 10 >= 5 * m.max_sparks || m.trails * 10 >= 5 * m.max_trails)
            ==> m.burst_scale_percent() <= 75,
        (m.sparks * 10 >= 3 * m.max_sparks || m.trails * 10 >= 3 * m.max_trails)
            ==> m.burst_scale_percent() <= 90,
        (m.sparks * 10 < 9 * m.max_sparks && m.trails * 10 < 9 * m.max_trails && (m.sparks * 10
            >= 7 * m.max_sparks || m.trails * 10 >= 7 * m.max_trails)) ==> m.burst_scale_percent()
            == 55,
        (m.sparks * 10 < 7 * m.max_sparks && m.trails * 10 < 7 * m.max_trails && (m.sparks * 10
            >= 5 * m.max_sparks || m.trails * 10 >= 5 * m.max_trails)) ==> m.burst_scale_percent()
            == 75,
        (m.sparks * 10 < 5 * m.max_sparks && m.trails * 10 < 5 * m.max_trails && (m.sparks * 10
            >= 3 * m.max_sparks || m.trails * 10 >= 3 * m.max_trails)) ==> m.burst_scale_percent()
            == 90,
        (m.sparks * 10 < 3 * m.max_sparks && m.trails * 10 < 3 * m.max_trails)
            ==> m.burst_scale_percent() == 100,
{
}

} // verus!
