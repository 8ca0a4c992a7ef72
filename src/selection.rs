//! Choice of the one camera that takes navigation input.
//!
//! Entities, windows and cameras are named by the 64-bit identifiers that the
//! host engine gives them.
use vstd::prelude::*;

verus! {

/// The window a camera renders to, as the camera names it.
#[derive(Clone, Copy, Debug, PartialEq, Eq, Structural)]
pub enum WindowRef {
    /// Whichever window is the primary one.
    Primary,
    /// The window with this identifier.
    Entity(u64),
}

/// Where a camera renders.
#[derive(Clone, Copy, Debug, PartialEq, Eq, Structural)]
pub enum RenderTarget {
    Window(WindowRef),
    /// An image or a texture view: never a window.
    Offscreen,
}

/// A window and whether it has the input focus.
#[derive(Clone, Copy, Debug, PartialEq, Eq, Structural)]
pub struct WindowInfo {
    pub entity: u64,
    pub focused: bool,
}

/// A camera that carries the control component.
#[derive(Clone, Copy, Debug, PartialEq, Eq, Structural)]
pub struct CameraInfo {
    pub entity: u64,
    /// The control component's own flag: whether input may go to it.
    pub is_active: bool,
    pub target: RenderTarget,
}

/// The window that `target` renders to, given the primary window, if any.
pub open spec fn target_window_spec(target: RenderTarget, primary: Option<u64>) -> Option<u64> {
    match target {
        RenderTarget::Window(WindowRef::Primary) => primary,
        RenderTarget::Window(WindowRef::Entity(e)) => Some(e),
        RenderTarget::Offscreen => None,
    }
}

/// Whether window `i` of `ws` is the first one with the focus.
pub open spec fn is_first_focused(ws: Seq<WindowInfo>, i: int) -> bool {
    0 <= i < ws.len() && ws[i].focused && forall|j: int| 0 <= j < i ==> !(#[trigger] ws[j]).focused
}

/// The focused window: the first focused one among the other windows, else
/// the primary window if it has the focus.
pub open spec fn focused_window_spec(ws: Seq<WindowInfo>, primary: Option<WindowInfo>) -> Option<u64> {
    if exists|i: int| is_first_focused(ws, i) {
        Some(ws[choose|i: int| is_first_focused(ws, i)].entity)
    } else {
        match primary {
            Some(p) => if p.focused {
                Some(p.entity)
            } else {
                None
            },
            None => None,
        }
    }
}

/// Whether camera `c` may take input while window `focused` has the focus.
pub open spec fn qualifies(c: CameraInfo, primary: Option<u64>, focused: u64) -> bool {
    c.is_active && target_window_spec(c.target, primary) == Some(focused)
}

/// Whether camera `i` of `cs` is the first one that qualifies.
pub open spec fn is_first_qualifying(cs: Seq<CameraInfo>, primary: Option<u64>, focused: u64, i: int) -> bool {
    0 <= i < cs.len() && qualifies(cs[i], primary, focused) && forall|j: int|
        0 <= j < i ==> !qualifies(#[trigger] cs[j], primary, focused)
}

/// The camera that takes input: the first one, in the order given, that is
/// flagged active and renders to the focused window.
pub open spec fn selection_spec(cs: Seq<CameraInfo>, primary: Option<u64>, focused: u64) -> Option<u64> {
    if exists|i: int| is_first_qualifying(cs, primary, focused, i) {
        Some(cs[choose|i: int| is_first_qualifying(cs, primary, focused, i)].entity)
    } else {
        None
    }
}

/// What a tick does to the active camera: `None` to leave it as it is,
/// `Some(a)` to replace it with `a`. Without a focused window the active
/// camera is kept; otherwise it becomes the selection, and a change is
/// reported only where the selection differs from `current`.
pub open spec fn sync_active_spec(
    current: Option<u64>,
    ws: Seq<WindowInfo>,
    primary: Option<WindowInfo>,
    cs: Seq<CameraInfo>,
) -> Option<Option<u64>> {
    match focused_window_spec(ws, primary) {
        None => None,
        Some(f) => {
            let sel = selection_spec(cs, primary_entity(primary), f);
            if sel == current {
                None
            } else {
                Some(sel)
            }
        },
    }
}

/// The identifier of the primary window, if there is one.
pub open spec fn primary_entity(primary: Option<WindowInfo>) -> Option<u64> {
    match primary {
        Some(p) => Some(p.entity),
        None => None,
    }
}

/// The window whose cursor follows the mode of a camera that renders to
/// `target`: the camera's own window where it is among `others` (the windows
/// other than the primary one), else the primary window; none where the
/// camera does not render to a window.
pub open spec fn cursor_window_spec(target: RenderTarget, primary: Option<u64>, others: Seq<u64>) -> Option<u64> {
    match target_window_spec(target, primary) {
        None => None,
        Some(w) => if others.contains(w) {
            Some(w)
        } else {
            primary
        },
    }
}

impl RenderTarget {
    /// The window this target renders to: the primary window stands for
    /// itself, an image or texture view is no window.
    pub fn window(&self, primary: Option<u64>) -> (r: Option<u64>)
        ensures
            r == target_window_spec(*self, primary),
    {
        match self {
            RenderTarget::Window(WindowRef::Primary) => primary,
            RenderTarget::Window(WindowRef::Entity(e)) => Some(*e),
            RenderTarget::Offscreen => None,
        }
    }
}

/// The window with the input focus: the first focused window among
/// `windows` (the windows other than the primary one), else the primary
/// window if it is focused, else none.
pub fn focused_window(windows: &Vec<WindowInfo>, primary: Option<WindowInfo>) -> (r: Option<u64>)
    ensures
        r == focused_window_spec(windows@, primary),
        (exists|i: int| is_first_focused(windows@, i)) ==> exists|i: int|
            #[trigger] is_first_focused(windows@, i) && r == Some(windows@[i].entity),
{
    let mut i: usize = 0;
    while i < windows.len()
        invariant
            0 <= i <= windows@.len(),
            forall|j: int| 0 <= j < i ==> !(#[trigger] windows@[j]).focused,
        decreases windows@.len() - i,
    {
        if windows[i].focused {
            proof {
                let ws = windows@;
                assert(is_first_focused(ws, i as int));
                let c = choose|k: int| is_first_focused(ws, k);
                assert(c == i as int) by {
                    if c < i as int {
                        assert(!ws[c].focused);
                    } else if c > i as int {
                        assert(!ws[i as int].focused);
                    }
                }
            }
            return Some(windows[i].entity);
        }
        i = i + 1;
    }
    match primary {
        Some(p) => if p.focused {
            Some(p.entity)
        } else {
            None
        },
        None => None,
    }
}

/// The camera that takes input while window `focused` has the focus: the
/// first of `cameras` that is flagged active and renders to that window.
pub fn select_active(cameras: &Vec<CameraInfo>, primary: Option<u64>, focused: u64) -> (r: Option<u64>)
    ensures
        r == selection_spec(cameras@, primary, focused),
        r.is_none() <==> forall|i: int|
            0 <= i < cameras@.len() ==> !qualifies(#[trigger] cameras@[i], primary, focused),
        r.is_some() ==> exists|i: int|
            #[trigger] is_first_qualifying(cameras@, primary, focused, i) && cameras@[i].entity
                == r.unwrap(),
{
    let mut i: usize = 0;
    while i < cameras.len()
        invariant
            0 <= i <= cameras@.len(),
            forall|j: int| 0 <= j < i ==> !qualifies(#[trigger] cameras@[j], primary, focused),
        decreases cameras@.len() - i,
    {
        let c = cameras[i];
        let w = c.target.window(primary);
        if c.is_active && w == Some(focused) {
            proof {
                let cs = cameras@;
                assert(is_first_qualifying(cs, primary, focused, i as int));
                let k = choose|k: int| is_first_qualifying(cs, primary, focused, k);
                assert(k == i as int) by {
                    if k < i as int {
                        assert(!qualifies(cs[k], primary, focused));
                    } else if k > i as int {
                        assert(!qualifies(cs[i as int], primary, focused));
                    }
                }
            }
            return Some(c.entity);
        }
        i = i + 1;
    }
    None
}

/// The window whose cursor is shown or captured for a camera that renders to
/// `target`; see `cursor_window_spec`.
pub fn cursor_window(target: RenderTarget, primary: Option<u64>, others: &Vec<u64>) -> (r: Option<u64>)
    ensures
        r == cursor_window_spec(target, primary, others@),
{
    let w = match target.window(primary) {
        Some(w) => w,
        None => return None,
    };
    let mut i: usize = 0;
    while i < others.len()
        invariant
            0 <= i <= others@.len(),
            target_window_spec(target, primary) == Some(w),
            forall|j: int| 0 <= j < i ==> others@[j] != w,
        decreases others@.len() - i,
    {
        if others[i] == w {
            assert(others@.contains(w)) by {
                assert(others@[i as int] == w);
            }
            return Some(w);
        }
        i = i + 1;
    }
    primary
}

/// One tick of active-camera tracking. Returns `None` to keep `current`, or
/// `Some(a)` when the active camera becomes `a`: this happens only when some
/// window has the focus and the camera chosen for it differs from `current`.
pub fn sync_active(
    current: Option<u64>,
    windows: &Vec<WindowInfo>,
    primary: Option<WindowInfo>,
    cameras: &Vec<CameraInfo>,
) -> (r: Option<Option<u64>>)
    ensures
        r == sync_active_spec(current, windows@, primary, cameras@),
        r.is_some() ==> r.unwrap() != current,
{
    let focused = match focused_window(windows, primary) {
        Some(f) => f,
        None => return None,
    };
    let primary_id = match primary {
        Some(p) => Some(p.entity),
        None => None,
    };
    let selected = select_active(cameras, primary_id, focused);
    if selected == current {
        None
    } else {
        Some(selected)
    }
}

} // verus!
