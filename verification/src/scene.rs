//! Deterministic staged scenes for README captures: which scene a name
//! selects, and which bursts the staged scenes detonate.
use vstd::prelude::*;
use crate::shells::BurstKind;
use crate::text::str_equal;

verus! {

/// The staged scenes.
#[derive(Clone, Copy, PartialEq, Eq, Structural, Debug)]
pub enum SceneKind {
    /// A quiet sky with one satellite.
    Night,
    /// A single chrysanthemum burst.
    Burst,
    /// Seven bursts at once, one of each kind.
    Finale,
}

/// A burst placed by a staged scene: position in design units, kind, and
/// the indices of its main and pistil colors.
#[derive(Clone, Copy, PartialEq, Eq, Structural, Debug)]
pub struct PlannedBurst {
    pub x: i32,
    pub y: i32,
    pub kind: BurstKind,
    pub main_color: u32,
    pub pistil_color: u32,
}

/// The scene that a name selects; other names stage nothing.
pub open spec fn scene_named(name: Seq<char>) -> Option<SceneKind> {
    if name == "night"@ {
        Some(SceneKind::Night)
    } else if name == "burst"@ {
        Some(SceneKind::Burst)
    } else if name == "finale"@ {
        Some(SceneKind::Finale)
    } else {
        None
    }
}

pub fn scene_from_name(name: &str) -> (r: Option<SceneKind>)
    ensures
        r == scene_named(name@),
{
    if str_equal(name, "night") {
        Some(SceneKind::Night)
    } else if str_equal(name, "burst") {
        Some(SceneKind::Burst)
    } else if str_equal(name, "finale") {
        Some(SceneKind::Finale)
    } else {
        None
    }
}

pub open spec fn planned(x: i32, y: i32, kind: BurstKind, main_color: u32, pistil_color: u32) -> PlannedBurst {
    PlannedBurst { x, y, kind, main_color, pistil_color }
}

/// The burst of the `burst` scene: a red chrysanthemum with a gold pistil.
pub open spec fn burst_scene_spec() -> PlannedBurst {
    planned(60, 230, BurstKind::Chrysanthemum, 0, 2)
}

/// The bursts of the `finale` scene, one of each kind, mono-colored.
pub open spec fn finale_spec() -> Seq<PlannedBurst> {
    seq![
        planned(-280i32, 280, BurstKind::Peony, 0, 0),
        planned(120, 340, BurstKind::Chrysanthemum, 3, 3),
        planned(-60i32, 190, BurstKind::Willow, 2, 2),
        planned(320, 250, BurstKind::Palm, 4, 4),
        planned(-420i32, 210, BurstKind::Ring, 5, 5),
        planned(0, 300, BurstKind::Crossette, 1, 1),
        planned(200, 180, BurstKind::Strobe, 7, 7),
    ]
}

pub fn burst_scene() -> (b: PlannedBurst)
    ensures
        b == burst_scene_spec(),
{
    PlannedBurst { x: 60, y: 230, kind: BurstKind::Chrysanthemum, main_color: 0, pistil_color: 2 }
}

pub fn finale_scene() -> (v: Vec<PlannedBurst>)
    ensures
        v@ == finale_spec(),
{
    let v = vec![
        PlannedBurst { x: -280, y: 280, kind: BurstKind::Peony, main_color: 0, pistil_color: 0 },
        PlannedBurst { x: 120, y: 340, kind: BurstKind::Chrysanthemum, main_color: 3, pistil_color: 3 },
        PlannedBurst { x: -60, y: 190, kind: BurstKind::Willow, main_color: 2, pistil_color: 2 },
        PlannedBurst { x: 320, y: 250, kind: BurstKind::Palm, main_color: 4, pistil_color: 4 },
        PlannedBurst { x: -420, y: 210, kind: BurstKind::Ring, main_color: 5, pistil_color: 5 },
        PlannedBurst { x: 0, y: 300, kind: BurstKind::Crossette, main_color: 1, pistil_color: 1 },
        PlannedBurst { x: 200, y: 180, kind: BurstKind::Strobe, main_color: 7, pistil_color: 7 },
    ];
    assert(v@ =~= finale_spec());
    v
}

/// The finale shows every shell kind exactly once, each in a single color
/// from the table.
pub proof fn law_finale_shows_every_kind(k: BurstKind)
    ensures
        exists|i: int| 0 <= i < finale_spec().len() && #[trigger] finale_spec()[i].kind == k,
        forall|i: int, j: int|
            0 <= i < j < finale_spec().len() ==> #[trigger] finale_spec()[i].kind
                != #[trigger] finale_spec()[j].kind,
        forall|i: int|
            0 <= i < finale_spec().len() ==> #[trigger] finale_spec()[i].main_color
                == finale_spec()[i].pistil_color && finale_spec()[i].main_color < 8,
{
    let f = finale_spec();
    match k {
        BurstKind::Peony => assert(f[0].kind == k),
        BurstKind::Chrysanthemum => assert(f[1].kind == k),
        BurstKind::Willow => assert(f[2].kind == k),
        BurstKind::Palm => assert(f[3].kind == k),
        BurstKind::Ring => assert(f[4].kind == k),
        BurstKind::Crossette => assert(f[5].kind == k),
        BurstKind::Strobe => assert(f[6].kind == k),
    }
}

} // verus!
