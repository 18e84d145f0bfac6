//! The render-target pane: hover and camera state, content lookup,
//! render-target sizing and pointer passthrough routing.
use vstd::prelude::*;

verus! {

/// Render layer shared by the node-graph grid and the pane cameras.
pub const NODE_GRAPH_RENDER_LAYER: usize = 11;

/// A pointer event that the image node of a pane observes.
#[derive(Clone, Copy, Debug, PartialEq, Eq, Structural)]
pub enum PanePointerEvent {
    /// The pointer entered the image node.
    Over,
    /// The pointer left the image node.
    Out,
    /// The pointer moved over the image node.
    Move,
}

/// Input state of one pane: whether its image node is hovered (it then
/// receives relocated pointer events), and whether its camera controller
/// reacts to input.
#[derive(Clone, Copy, Debug, PartialEq, Eq, Structural)]
pub struct PaneInput {
    pub hovered: bool,
    pub camera_enabled: bool,
}

impl PaneInput {
    /// A freshly created pane: not hovered, camera controller disabled.
    pub fn new() -> (r: PaneInput)
        ensures
            !r.hovered,
            !r.camera_enabled,
    {
        PaneInput { hovered: false, camera_enabled: false }
    }

    /// The state after `ev`: entering marks the pane hovered, moving enables
    /// the camera controller, leaving clears both.
    pub fn apply(self, ev: PanePointerEvent) -> (r: PaneInput)
        ensures
            r.hovered == match ev {
                PanePointerEvent::Over => true,
                PanePointerEvent::Out => false,
                PanePointerEvent::Move => self.hovered,
            },
            r.camera_enabled == match ev {
                PanePointerEvent::Over => self.camera_enabled,
                PanePointerEvent::Out => false,
                PanePointerEvent::Move => true,
            },
    {
        match ev {
            PanePointerEvent::Over => PaneInput { hovered: true, ..self },
            PanePointerEvent::Out => PaneInput { hovered: false, camera_enabled: false },
            PanePointerEvent::Move => PaneInput { camera_enabled: true, ..self },
        }
    }
}


/// Position of the first content node among a pane's descendants, listed in
/// the order in which they are walked; `is_content[i]` tells whether the
/// `i`-th descendant is a content node.
pub fn first_content_node(is_content: &Vec<bool>) -> (r: Option<usize>)
    ensures
        match r {
            Some(i) => i < is_content@.len() && is_content@[i as int]
                && forall|j: int| 0 <= j < i ==> !is_content@[j],
            None => forall|j: int| 0 <= j < is_content@.len() ==> !is_content@[j],
        },
{
    let mut i: usize = 0;
    while i < is_content.len()
        invariant
            i <= is_content@.len(),
            forall|j: int| 0 <= j < i ==> !is_content@[j],
        decreases is_content@.len() - i,
    {
        if is_content[i] {
            return Some(i);
        }
        i += 1;
    }
    None
}

/// Identity of a pointer: the mouse, a touch, or a custom pointer.
#[derive(Clone, Copy, Debug, PartialEq, Eq, Structural)]
pub enum PointerId {
    Mouse,
    Touch(u64),
    Custom(u128),
}

/// Position of the first pointer in `pointers` whose identity is `id`.
pub fn find_pointer(pointers: &Vec<PointerId>, id: PointerId) -> (r: Option<usize>)
    ensures
        match r {
            Some(i) => i < pointers@.len() && pointers@[i as int] == id
                && forall|j: int| 0 <= j < i ==> pointers@[j] != id,
            None => forall|j: int| 0 <= j < pointers@.len() ==> pointers@[j] != id,
        },
{
    let mut i: usize = 0;
    while i < pointers.len()
        invariant
            i <= pointers@.len(),
            forall|j: int| 0 <= j < i ==> pointers@[j] != id,
        decreases pointers@.len() - i,
    {
        if pointers[i] == id {
            return Some(i);
        }
        i += 1;
    }
    None
}

/// Size of a pane's render-target texture.
#[derive(Clone, Copy, Debug, PartialEq, Eq, Structural)]
pub struct RenderTargetExtent {
    pub width: u32,
    pub height: u32,
    pub depth_or_array_layers: u32,
}

/// The texture size for a content node of `width` by `height` whole pixels:
/// each side at least one pixel, one layer deep.
pub fn render_target_extent(width: u32, height: u32) -> (r: RenderTargetExtent)
    ensures
        r.width == if width == 0 { 1 } else { width },
        r.height == if height == 0 { 1 } else { height },
        r.depth_or_array_layers == 1,
{
    RenderTargetExtent {
        width: if width < 1 { 1 } else { width },
        height: if height < 1 { 1 } else { height },
        depth_or_array_layers: 1,
    }
}

/// Where a pointer event is located.
#[derive(Clone, Copy, Debug, PartialEq, Eq, Structural)]
pub enum PointerTarget {
    /// A window: the event came from the platform.
    Window,
    /// A render-target image: the event was relocated into a pane.
    Image,
}

/// The routes of the event at position `event` into the hovered panes
/// among `hovered`, in pane order: `(event, pane)` for each hovered pane.
pub open spec fn pane_routes(event: usize, hovered: Seq<bool>) -> Seq<(usize, usize)>
    decreases hovered.len(),
{
    if hovered.len() == 0 {
        Seq::empty()
    } else {
        pane_routes(event, hovered.drop_last()) + if hovered.last() {
            seq![(event, (hovered.len() - 1) as usize)]
        } else {
            Seq::empty()
        }
    }
}

/// The routes of all `events`, in event order: each event located in a
/// window goes to every hovered pane; events already located in a render
/// target are not routed again.
pub open spec fn passthrough_routes(events: Seq<PointerTarget>, hovered: Seq<bool>) -> Seq<
    (usize, usize),
>
    decreases events.len(),
{
    if events.len() == 0 {
        Seq::empty()
    } else {
        passthrough_routes(events.drop_last(), hovered) + if events.last() == PointerTarget::Window {
            pane_routes((events.len() - 1) as usize, hovered)
        } else {
            Seq::empty()
        }
    }
}

/// Decides which pointer events are duplicated into which panes: one
/// `(event, pane)` pair for each event located in a window and each hovered
/// pane, events in order and, for each event, panes in order.
pub fn route_pointer_events(events: &Vec<PointerTarget>, hovered: &Vec<bool>) -> (r: Vec<
    (usize, usize),
>)
    ensures
        r@ == passthrough_routes(events@, hovered@),
{
    let mut out: Vec<(usize, usize)> = Vec::new();
    let mut i: usize = 0;
    while i < events.len()
        invariant
            i <= events@.len(),
            out@ == passthrough_routes(events@.take(i as int), hovered@),
        decreases events@.len() - i,
    {
        assert(events@.take(i + 1).drop_last() =~= events@.take(i as int));
        if events[i] == PointerTarget::Window {
            let mut j: usize = 0;
            while j < hovered.len()
                invariant
                    i < events@.len(),
                    j <= hovered@.len(),
                    events@[i as int] == PointerTarget::Window,
                    out@ == passthrough_routes(events@.take(i as int), hovered@) + pane_routes(
                        i,
                        hovered@.take(j as int),
                    ),
                decreases hovered@.len() - j,
            {
                assert(hovered@.take(j + 1).drop_last() =~= hovered@.take(j as int));
                if hovered[j] {
                    out.push((i, j));
                }
                j += 1;
            }
            assert(hovered@.take(hovered@.len() as int) =~= hovered@);
        }
        i += 1;
    }
    assert(events@.take(events@.len() as int) =~= events@);
    out
}

} // verus!
