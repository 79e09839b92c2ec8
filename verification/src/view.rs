//! Per-frame decisions about the view: when the native-resolution scaling
//! must be recomputed, when the foreground hills are relit and by how many
//! burst lights, and whether another satellite may cross the sky.
use vstd::prelude::*;

verus! {

/// Most burst lights that relight the hills in one frame.
pub const MAX_HILL_LIGHTS: usize = 12;
/// Above this many lights the hills are relit only every other frame.
pub const BUSY_HILL_LIGHTS: usize = 6;
/// Most satellites in the sky at once.
pub const MAX_SATELLITES: usize = 2;

/// Remembers the last window size the view was scaled for.
#[derive(Clone, Copy, Debug)]
pub struct ViewSync {
    pub last_size: Option<(u32, u32)>,
}

impl ViewSync {
    /// Seeing a window of `width` x `height`: a zero-sized window is
    /// ignored, an unchanged size needs nothing, a new size is remembered
    /// and the view rescaled.
    pub open spec fn observed(self, width: u32, height: u32) -> (ViewSync, bool) {
        if width == 0 || height == 0 {
            (self, false)
        } else if self.last_size == Some((width, height)) {
            (self, false)
        } else {
            (ViewSync { last_size: Some((width, height)) }, true)
        }
    }

    pub fn new() -> (v: Self)
        ensures
            v.last_size is None,
    {
        ViewSync { last_size: None }
    }

    /// Returns whether the view must be rescaled for this window size.
    pub fn observe(&mut self, width: u32, height: u32) -> (rescale: bool)
        ensures
            (*final(self), rescale) == old(self).observed(width, height),
    {
        if width == 0 || height == 0 {
            return false;
        }
        match self.last_size {
            Some((w, h)) => {
                if w == width && h == height {
                    return false;
                }
            },
            None => {},
        }
        self.last_size = Some((width, height));
        true
    }
}

/// Rescaling happens once per new size: seeing the same size again right
/// after needs nothing.
pub proof fn law_rescale_once_per_size(v: ViewSync, width: u32, height: u32)
    ensures
        v.observed(width, height).0.observed(width, height) == (v.observed(width, height).0, false),
        v.observed(width, height).1 ==> v.observed(width, height).0.last_size == Some((width, height)),
{
}

/// A window of non-zero size other than the remembered one is remembered
/// and rescaled for; a zero-sized window, or the remembered size, changes
/// nothing.
pub proof fn law_rescale_on_new_size(v: ViewSync, width: u32, height: u32)
    ensures
        width != 0 && height != 0 && v.last_size != Some((width, height)) ==> v.observed(
            width,
            height,
        ).1 && v.observed(width, height).0.last_size == Some((width, height)),
        (width == 0 || height == 0) ==> !v.observed(width, height).1 && v.observed(
            width,
            height,
        ).0.last_size == v.last_size,
        v.last_size == Some((width, height)) ==> !v.observed(width, height).1 && v.observed(
            width,
            height,
        ).0.last_size == v.last_size,
{
}

/// What the hill lighting does this frame.
#[derive(Clone, Copy, PartialEq, Eq, Structural, Debug)]
pub enum LightingPlan {
    /// Leave the hill colors as they are.
    Skip,
    /// Recolor the hills from the base colors and the `keep` brightest lights.
    Relight { keep: usize },
}

/// Frame counter and whether the hills are currently lit.
#[derive(Clone, Copy, PartialEq, Eq, Structural, Debug)]
pub struct HillLighting {
    pub was_lit: bool,
    pub frame: u32,
}

impl HillLighting {
    /// One frame with `active` burst lights alive. Unlit hills with no light
    /// stay as they are; under heavy load (more than six lights) only even
    /// frames relight; at most the twelve brightest lights are used. The
    /// hills are relit once more after the last light dies, to restore them.
    pub open spec fn planned(self, active: nat) -> (HillLighting, LightingPlan) {
        let frame = if self.frame == u32::MAX {
            0u32
        } else {
            (self.frame + 1) as u32
        };
        if active == 0 && !self.was_lit {
            (HillLighting { frame, ..self }, LightingPlan::Skip)
        } else {
            let next = HillLighting { was_lit: active > 0, frame };
            if active > BUSY_HILL_LIGHTS && frame % 2 == 1 {
                (next, LightingPlan::Skip)
            } else {
                (
                    next,
                    LightingPlan::Relight {
                        keep: if active > MAX_HILL_LIGHTS {
                            MAX_HILL_LIGHTS
                        } else {
                            active as usize
                        },
                    },
                )
            }
        }
    }

    pub fn new() -> (h: Self)
        ensures
            h == (HillLighting { was_lit: false, frame: 0 }),
    {
        HillLighting { was_lit: false, frame: 0 }
    }

    pub fn plan(&mut self, active: usize) -> (p: LightingPlan)
        ensures
            (*final(self), p) == old(self).planned(active as nat),
    {
        self.frame = self.frame.wrapping_add(1);
        if active == 0 && !self.was_lit {
            return LightingPlan::Skip;
        }
        self.was_lit = active > 0;
        if active > BUSY_HILL_LIGHTS && self.frame % 2 == 1 {
            return LightingPlan::Skip;
        }
        let keep = if active > MAX_HILL_LIGHTS {
            MAX_HILL_LIGHTS
        } else {
            active
        };
        LightingPlan::Relight { keep }
    }
}

/// At most twelve lights are used, never more than are alive; the frame
/// after the last light dies restores the hills, and from then on nothing
/// is done until a burst lights them again.
pub proof fn law_hill_lighting(h: HillLighting, active: nat)
    ensures
        h.planned(active).1 matches LightingPlan::Relight { keep } ==> keep <= MAX_HILL_LIGHTS
            && keep <= active,
        active == 0 && h.was_lit ==> h.planned(0).1 == (LightingPlan::Relight { keep: 0 })
            && !h.planned(0).0.was_lit,
        active == 0 && !h.was_lit ==> h.planned(0).1 == LightingPlan::Skip,
        1 <= active <= BUSY_HILL_LIGHTS ==> h.planned(active).1 is Relight,
{
}

/// Whether another satellite may be launched across the sky.
pub fn may_spawn_satellite(existing: usize) -> (r: bool)
    ensures
        r == (existing < MAX_SATELLITES),
{
    existing < MAX_SATELLITES
}

} // verus!
