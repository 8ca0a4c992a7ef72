//! Which cameras get a hint gizmo while a camera is active, and of which kind.
use vstd::prelude::*;

verus! {

/// A camera in the scene, and whether it carries the control component.
#[derive(Clone, Copy, Debug, PartialEq, Eq, Structural)]
pub struct SceneCamera {
    pub entity: u64,
    pub has_control: bool,
}

/// The kind of hint drawn for a camera; each kind has a color of its own.
#[derive(Clone, Copy, Debug, PartialEq, Eq, Structural)]
pub enum HintKind {
    /// A camera that carries the control component.
    Controlled,
    /// Any other camera.
    Plain,
}

/// A hint to draw for one camera.
#[derive(Clone, Copy, Debug, PartialEq, Eq, Structural)]
pub struct CameraHint {
    pub entity: u64,
    pub kind: HintKind,
}

/// The hint for camera `c`.
pub open spec fn hint_of(c: SceneCamera) -> CameraHint {
    CameraHint {
        entity: c.entity,
        kind: if c.has_control {
            HintKind::Controlled
        } else {
            HintKind::Plain
        },
    }
}

/// The hints for `cs`, in order: one for each camera but the active one.
pub open spec fn hints_spec(active: u64, cs: Seq<SceneCamera>) -> Seq<CameraHint>
    decreases cs.len(),
{
    if cs.len() == 0 {
        Seq::empty()
    } else {
        let rest = hints_spec(active, cs.drop_last());
        if cs.last().entity == active {
            rest
        } else {
            rest.push(hint_of(cs.last()))
        }
    }
}

/// The hints to draw while camera `active` takes input: every other camera,
/// in the order given, marked by whether it carries the control component.
pub fn camera_hints(active: u64, cameras: &Vec<SceneCamera>) -> (r: Vec<CameraHint>)
    ensures
        r@ == hints_spec(active, cameras@),
{
    let mut r: Vec<CameraHint> = Vec::new();
    let mut i: usize = 0;
    while i < cameras.len()
        invariant
            0 <= i <= cameras@.len(),
            r@ == hints_spec(active, cameras@.take(i as int)),
        decreases cameras@.len() - i,
    {
        let c = cameras[i];
        proof {
            assert(cameras@.take(i + 1).drop_last() =~= cameras@.take(i as int));
            assert(cameras@.take(i + 1).last() == c);
        }
        if c.entity != active {
            let kind = if c.has_control {
                HintKind::Controlled
            } else {
                HintKind::Plain
            };
            r.push(CameraHint { entity: c.entity, kind });
        }
        i = i + 1;
    }
    assert(cameras@.take(cameras@.len() as int) =~= cameras@);
    r
}

} // verus!
