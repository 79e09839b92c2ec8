//! What kind of shell is launched, with which colors, how many at once, and
//! how many stars each kind of burst throws.
use vstd::prelude::*;
use rand::rngs::ThreadRng;
use crate::budget::{scale_burst_count, scaled_count, ParticleBudget};
use crate::rng::{chance, roll_range};

verus! {

/// The seven shell types.
#[derive(Clone, Copy, PartialEq, Eq, Structural, Debug)]
pub enum BurstKind {
    Peony,
    Chrysanthemum,
    Willow,
    Palm,
    Ring,
    Crossette,
    Strobe,
}

/// Number of pyrotechnic emitter colors in the palette table.
pub const COLOR_COUNT: u32 = 8;

/// Rolls out of every hundred that give each kind: the shell mix.
pub const ROLL_SPAN: u32 = 100;

/// The kind a percentile roll selects: 26% peony, 22% chrysanthemum,
/// 12% willow, and 10% each of palm, ring, crossette and strobe.
pub open spec fn kind_of_roll(roll: nat) -> BurstKind {
    if roll <= 25 {
        BurstKind::Peony
    } else if roll <= 47 {
        BurstKind::Chrysanthemum
    } else if roll <= 59 {
        BurstKind::Willow
    } else if roll <= 69 {
        BurstKind::Palm
    } else if roll <= 79 {
        BurstKind::Ring
    } else if roll <= 89 {
        BurstKind::Crossette
    } else {
        BurstKind::Strobe
    }
}

/// How many of the hundred rolls select each kind.
pub open spec fn kind_weight(k: BurstKind) -> nat {
    match k {
        BurstKind::Peony => 26,
        BurstKind::Chrysanthemum => 22,
        BurstKind::Willow => 12,
        BurstKind::Palm => 10,
        BurstKind::Ring => 10,
        BurstKind::Crossette => 10,
        BurstKind::Strobe => 10,
    }
}

/// Number of rolls below `n` that select kind `k`.
pub open spec fn rolls_selecting(k: BurstKind, n: nat) -> nat
    decreases n,
{
    if n == 0 {
        0
    } else {
        rolls_selecting(k, (n - 1) as nat) + if kind_of_roll((n - 1) as nat) == k {
            1nat
        } else {
            0nat
        }
    }
}

/// Maps a percentile roll to a shell kind.
pub fn kind_for_roll(roll: u32) -> (k: BurstKind)
    ensures
        k == kind_of_roll(roll as nat),
{
    if roll <= 25 {
        BurstKind::Peony
    } else if roll <= 47 {
        BurstKind::Chrysanthemum
    } else if roll <= 59 {
        BurstKind::Willow
    } else if roll <= 69 {
        BurstKind::Palm
    } else if roll <= 79 {
        BurstKind::Ring
    } else if roll <= 89 {
        BurstKind::Crossette
    } else {
        BurstKind::Strobe
    }
}

/// Picks a random shell kind from a percentile roll.
pub fn random_kind(rng: &mut ThreadRng) -> (k: BurstKind)
    ensures
        exists|roll: nat| roll < ROLL_SPAN && k == kind_of_roll(roll),
{
    let roll = roll_range(rng, 0, ROLL_SPAN);
    kind_for_roll(roll)
}

/// The palette a shell gets from its rolls: the main color, and the pistil
/// color, which is a second color for two-tone shells and the main color
/// again for mono-color ones.
pub fn palette_from_rolls(first: u32, two_tone: bool, second: u32) -> (p: (u32, u32))
    ensures
        p.0 == first,
        p.1 == if two_tone {
            second
        } else {
            first
        },
{
    if two_tone {
        (first, second)
    } else {
        (first, first)
    }
}

/// Picks a random palette: two-tone with probability 3/5, else mono-color.
/// The results index the table of `COLOR_COUNT` emitter colors.
pub fn random_palette(rng: &mut ThreadRng) -> (p: (u32, u32))
    ensures
        p.0 < COLOR_COUNT,
        p.1 < COLOR_COUNT,
{
    let first = roll_range(rng, 0, COLOR_COUNT);
    let two_tone = chance(rng, 3, 5);
    let second = if two_tone {
        roll_range(rng, 0, COLOR_COUNT)
    } else {
        first
    };
    palette_from_rolls(first, two_tone, second)
}

/// How many shells one automatic launch sends up: a salvo of `2 + extra`
/// shells, or a single shell.
pub fn launch_count_from(salvo: bool, extra: u32) -> (n: u32)
    requires
        extra < 2,
    ensures
        n == if salvo {
            2 + extra
        } else {
            1
        },
{
    if salvo {
        2 + extra
    } else {
        1
    }
}

/// Shells for one automatic launch: with probability 9/50 a salvo of two or
/// three, otherwise one.
pub fn launch_count(rng: &mut ThreadRng) -> (n: u32)
    ensures
        1 <= n <= 3,
{
    let salvo = chance(rng, 9, 50);
    if salvo {
        let extra = roll_range(rng, 0, 2);
        launch_count_from(true, extra)
    } else {
        launch_count_from(false, 0)
    }
}

/// Nominal star count range (half-open) of the main shell of each kind.
pub open spec fn star_range(k: BurstKind) -> (nat, nat) {
    match k {
        BurstKind::Peony => (170, 250),
        BurstKind::Chrysanthemum => (140, 200),
        BurstKind::Willow => (70, 110),
        BurstKind::Palm => (9, 14),
        BurstKind::Ring => (70, 110),
        BurstKind::Crossette => (18, 30),
        BurstKind::Strobe => (90, 130),
    }
}

/// The half-open range from which a burst's nominal main star count is drawn.
pub fn star_count_range(k: BurstKind) -> (r: (u32, u32))
    ensures
        r.0 == star_range(k).0,
        r.1 == star_range(k).1,
        r.0 < r.1,
        r == match k {
            BurstKind::Peony => (170u32, 250u32),
            BurstKind::Chrysanthemum => (140u32, 200u32),
            BurstKind::Willow => (70u32, 110u32),
            BurstKind::Palm => (9u32, 14u32),
            BurstKind::Ring => (70u32, 110u32),
            BurstKind::Crossette => (18u32, 30u32),
            BurstKind::Strobe => (90u32, 130u32),
        },
{
    match k {
        BurstKind::Peony => (170, 250),
        BurstKind::Chrysanthemum => (140, 200),
        BurstKind::Willow => (70, 110),
        BurstKind::Palm => (9, 14),
        BurstKind::Ring => (70, 110),
        BurstKind::Crossette => (18, 30),
        BurstKind::Strobe => (90, 130),
    }
}

/// Nominal size of a burst's secondary group: the peony's colored pistil is a
/// third of its (already thinned) main stars, the palm has a crown of forty
/// crackling stars, the other kinds have none.
pub open spec fn secondary_nominal(k: BurstKind, main: nat) -> nat {
    match k {
        BurstKind::Peony => main / 3,
        BurstKind::Palm => 40,
        _ => 0,
    }
}

/// Stars in a burst's secondary group after load thinning, zero for kinds
/// that have none.
pub fn secondary_star_count(k: BurstKind, main: u32, budget: &ParticleBudget) -> (n: u32)
    ensures
        n == match k {
            BurstKind::Peony | BurstKind::Palm => scaled_count(
                secondary_nominal(k, main as nat),
                budget@.burst_scale_percent(),
            ),
            _ => 0,
        },
{
    match k {
        BurstKind::Peony => scale_burst_count(main / 3, budget),
        BurstKind::Palm => scale_burst_count(40, budget),
        _ => 0,
    }
}

proof fn lemma_rolls_on_run(k: BurstKind, a: nat, n: nat)
    requires
        a <= n,
        forall|r: nat| a <= r < n ==> kind_of_roll(r) == k,
    ensures
        rolls_selecting(k, n) == rolls_selecting(k, a) + (n - a),
    decreases n - a,
{
    if n > a {
        lemma_rolls_on_run(k, a, (n - 1) as nat);
    }
}

proof fn lemma_rolls_off_run(k: BurstKind, a: nat, n: nat)
    requires
        a <= n,
        forall|r: nat| a <= r < n ==> kind_of_roll(r) != k,
    ensures
        rolls_selecting(k, n) == rolls_selecting(k, a),
    decreases n - a,
{
    if n > a {
        lemma_rolls_off_run(k, a, (n - 1) as nat);
    }
}

proof fn lemma_run(k: BurstKind, a: nat, n: nat, sel: BurstKind)
    requires
        a <= n,
        forall|r: nat| a <= r < n ==> kind_of_roll(r) == sel,
    ensures
        rolls_selecting(k, n) == rolls_selecting(k, a) + if sel == k {
            (n - a) as nat
        } else {
            0nat
        },
{
    if sel == k {
        lemma_rolls_on_run(k, a, n);
    } else {
        lemma_rolls_off_run(k, a, n);
    }
}

/// The shell mix: out of the hundred equally likely rolls, exactly
/// `kind_weight(k)` select kind `k`, and every kind can be launched.
pub proof fn law_kind_weights(k: BurstKind)
    ensures
        rolls_selecting(k, ROLL_SPAN as nat) == kind_weight(k),
        kind_weight(k) > 0,
{
    lemma_run(k, 0, 26, BurstKind::Peony);
    lemma_run(k, 26, 48, BurstKind::Chrysanthemum);
    lemma_run(k, 48, 60, BurstKind::Willow);
    lemma_run(k, 60, 70, BurstKind::Palm);
    lemma_run(k, 70, 80, BurstKind::Ring);
    lemma_run(k, 80, 90, BurstKind::Crossette);
    lemma_run(k, 90, 100, BurstKind::Strobe);
}

/// Every shell kind is selected by some roll of the hundred.
pub proof fn law_every_kind_launchable(k: BurstKind)
    ensures
        exists|roll: nat| roll < ROLL_SPAN && kind_of_roll(roll) == k,
{
    let roll: nat = match k {
        BurstKind::Peony => 0,
        BurstKind::Chrysanthemum => 26,
        BurstKind::Willow => 48,
        BurstKind::Palm => 60,
        BurstKind::Ring => 70,
        BurstKind::Crossette => 80,
        BurstKind::Strobe => 90,
    };
    assert(kind_of_roll(roll) == k);
}

/// The nominal main star count ranges of the seven kinds.
pub proof fn law_star_count_table(k: BurstKind)
    ensures
        k == BurstKind::Peony ==> star_range(k) == (170nat, 250nat),
        k == BurstKind::Chrysanthemum ==> star_range(k) == (140nat, 200nat),
        k == BurstKind::Willow ==> star_range(k) == (70nat, 110nat),
        k == BurstKind::Palm ==> star_range(k) == (9nat, 14nat),
        k == BurstKind::Ring ==> star_range(k) == (70nat, 110nat),
        k == BurstKind::Crossette ==> star_range(k) == (18nat, 30nat),
        k == BurstKind::Strobe ==> star_range(k) == (90nat, 130nat),
{
}

} // verus!
