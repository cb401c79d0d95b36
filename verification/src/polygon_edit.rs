//! The decisions of polygon editing: what a mouse press on the selection
//! does, and which vertices an edit removes or adds.  The vertex positions
//! themselves (floating point) stay with the caller.
use vstd::prelude::*;

verus! {

/// What lies under the mouse: nothing, a vertex, or an edge (from the vertex
/// with this index to the next one).
#[derive(Debug, Clone, Copy, PartialEq, Eq, Structural)]
pub enum PolygonHit {
    Nothing,
    Vertex(usize),
    Edge(usize),
}

/// What a mouse press does to the selection.
#[derive(Debug, Clone, Copy, PartialEq, Eq, Structural)]
pub enum PressAction {
    /// Nothing happens (the polygon would lose too many vertices).
    Ignore,
    /// The vertex is deleted.
    RemoveVertex(usize),
    /// The vertex follows the mouse.
    DragVertex(usize),
    /// Both ends of the edge are deleted.
    RemoveEdge(usize),
    /// A new vertex is put on the edge, after its first end, and follows the
    /// mouse.
    SplitEdge(usize),
    /// The edge moves with the mouse.
    DragEdge(usize),
    /// A new box starts at the mouse.
    NewBox,
    /// The whole selection moves with the mouse.
    MoveSelection,
}

/// The action of a press: on a polygon, a right press deletes what it hits
/// (unless fewer than three vertices would be left) and a left press drags
/// or splits it; a press on nothing, or with box selection, starts a new box,
/// or moves the selection while Shift is held.
pub open spec fn spec_press_action(
    use_polygon: bool,
    hit: PolygonHit,
    right_button: bool,
    vertex_count: usize,
    shift_held: bool,
) -> PressAction {
    let fresh = if shift_held {
        PressAction::MoveSelection
    } else {
        PressAction::NewBox
    };
    if !use_polygon {
        fresh
    } else {
        match hit {
            PolygonHit::Vertex(i) => if right_button {
                if vertex_count <= 3 {
                    PressAction::Ignore
                } else {
                    PressAction::RemoveVertex(i)
                }
            } else {
                PressAction::DragVertex(i)
            },
            PolygonHit::Edge(i) => if right_button {
                if vertex_count <= 4 {
                    PressAction::Ignore
                } else {
                    PressAction::RemoveEdge(i)
                }
            } else if shift_held {
                PressAction::DragEdge(i)
            } else {
                PressAction::SplitEdge(i)
            },
            PolygonHit::Nothing => fresh,
        }
    }
}

pub fn press_action(
    use_polygon: bool,
    hit: PolygonHit,
    right_button: bool,
    vertex_count: usize,
    shift_held: bool,
) -> (a: PressAction)
    ensures
        a == spec_press_action(use_polygon, hit, right_button, vertex_count, shift_held),
{
    let fresh = if shift_held {
        PressAction::MoveSelection
    } else {
        PressAction::NewBox
    };
    if !use_polygon {
        return fresh;
    }
    match hit {
        PolygonHit::Vertex(i) => {
            if right_button {
                if vertex_count <= 3 {
                    PressAction::Ignore
                } else {
                    PressAction::RemoveVertex(i)
                }
            } else {
                PressAction::DragVertex(i)
            }
        },
        PolygonHit::Edge(i) => {
            if right_button {
                if vertex_count <= 4 {
                    PressAction::Ignore
                } else {
                    PressAction::RemoveEdge(i)
                }
            } else if shift_held {
                PressAction::DragEdge(i)
            } else {
                PressAction::SplitEdge(i)
            }
        },
        PolygonHit::Nothing => fresh,
    }
}

/// A plain left press on a polygon vertex always drags that vertex, whatever
/// the vertex count and whether Shift is held.
pub proof fn law_left_press_on_vertex_drags(i: usize, vertex_count: usize, shift_held: bool)
    ensures
        spec_press_action(true, PolygonHit::Vertex(i), false, vertex_count, shift_held)
            == PressAction::DragVertex(i),
{
}

/// Each editing action acts on exactly what was hit, with the button that
/// belongs to it: a vertex is dragged or removed only when it was hit, an edge
/// is split, dragged or removed only when it was hit, splitting and removing
/// need polygon mode, removing needs the right button and splitting the left
/// one without Shift, and removals leave at least three vertices.
pub proof fn law_action_matches_hit(
    use_polygon: bool,
    hit: PolygonHit,
    right_button: bool,
    vertex_count: usize,
    shift_held: bool,
)
    ensures
        ({
            let a = spec_press_action(use_polygon, hit, right_button, vertex_count, shift_held);
            &&& a matches PressAction::DragVertex(i) ==> use_polygon && hit == PolygonHit::Vertex(i)
                && !right_button
            &&& a matches PressAction::RemoveVertex(i) ==> use_polygon && hit == PolygonHit::Vertex(i)
                && right_button && vertex_count - 1 >= 3
            &&& a matches PressAction::SplitEdge(i) ==> use_polygon && hit == PolygonHit::Edge(i)
                && !right_button && !shift_held
            &&& a matches PressAction::DragEdge(i) ==> use_polygon && hit == PolygonHit::Edge(i)
                && !right_button && shift_held
            &&& a matches PressAction::RemoveEdge(i) ==> use_polygon && hit == PolygonHit::Edge(i)
                && right_button && vertex_count - 2 >= 3
            &&& a is Ignore ==> use_polygon && right_button && !(hit is Nothing)
            &&& (a is NewBox || a is MoveSelection) ==> (!use_polygon || hit is Nothing)
            &&& a is MoveSelection ==> shift_held
            &&& a is NewBox ==> !shift_held
        }),
{
}

/// A press on a polygon edge with the left button splits it, or drags it while
/// Shift is held; with the right button it removes it unless that would
/// leave fewer than three vertices, in which case nothing happens.  A right
/// press on a vertex removes it under the same condition.
pub proof fn law_press_on_hit(i: usize, vertex_count: usize, shift_held: bool)
    ensures
        spec_press_action(true, PolygonHit::Edge(i), false, vertex_count, shift_held) == if shift_held {
            PressAction::DragEdge(i)
        } else {
            PressAction::SplitEdge(i)
        },
        spec_press_action(true, PolygonHit::Edge(i), true, vertex_count, shift_held) == if vertex_count
            >= 5 {
            PressAction::RemoveEdge(i)
        } else {
            PressAction::Ignore
        },
        spec_press_action(true, PolygonHit::Vertex(i), true, vertex_count, shift_held) == if vertex_count
            >= 4 {
            PressAction::RemoveVertex(i)
        } else {
            PressAction::Ignore
        },
{
}

/// Without polygon mode, or on empty space, a press starts a new box, or
/// moves the selection while Shift is held, whichever button it is and
/// whatever lies under the mouse.
pub proof fn law_box_press(
    use_polygon: bool,
    hit: PolygonHit,
    right_button: bool,
    vertex_count: usize,
    shift_held: bool,
)
    requires
        !use_polygon || hit is Nothing,
    ensures
        spec_press_action(use_polygon, hit, right_button, vertex_count, shift_held) == if shift_held {
            PressAction::MoveSelection
        } else {
            PressAction::NewBox
        },
{
}

/// The hovered edge and vertex that a hit makes.
pub fn hovered_from_hit(hit: PolygonHit) -> (r: (Option<usize>, Option<usize>))
    ensures
        r == (match hit {
            PolygonHit::Vertex(i) => (None, Some(i)),
            PolygonHit::Edge(i) => (Some(i), None),
            PolygonHit::Nothing => (None::<usize>, None::<usize>),
        }),
{
    match hit {
        PolygonHit::Vertex(i) => (None, Some(i)),
        PolygonHit::Edge(i) => (Some(i), None),
        PolygonHit::Nothing => (None, None),
    }
}

/// The vertices after deleting the edge from vertex `i` to the next one: the
/// vertex `i` goes first, then the vertex that follows it (which is the
/// first vertex when `i` is the last).
pub open spec fn spec_remove_edge<T>(v: Seq<T>, i: int) -> Seq<T> {
    let once = v.remove(i);
    once.remove(i % (once.len() as int))
}

/// Deletes both ends of the edge that starts at vertex `i`.
pub fn remove_edge<T>(vertices: &mut Vec<T>, i: usize)
    requires
        i < old(vertices)@.len(),
        old(vertices)@.len() >= 2,
    ensures
        final(vertices)@ == spec_remove_edge(old(vertices)@, i as int),
{
    vertices.remove(i);
    let n = vertices.len();
    vertices.remove(i % n);
}

/// Deleting an edge removes exactly its two ends: with `i` not the last
/// vertex, the vertices before `i` and after `i + 1` stay in order; with `i`
/// the last vertex, the first and last vertices go.
pub proof fn law_remove_edge_drops_its_ends<T>(v: Seq<T>, i: int)
    requires
        0 <= i < v.len(),
        v.len() >= 2,
    ensures
        spec_remove_edge(v, i).len() == v.len() - 2,
        i + 1 < v.len() ==> spec_remove_edge(v, i) == v.subrange(0, i) + v.subrange(
            i + 2,
            v.len() as int,
        ),
        i + 1 == v.len() ==> spec_remove_edge(v, i) == v.subrange(1, i),
{
    let once = v.remove(i);
    if i + 1 < v.len() {
        assert(i % (once.len() as int) == i) by (nonlinear_arith)
            requires
                0 <= i < once.len(),
        ;
        assert(spec_remove_edge(v, i) =~= v.subrange(0, i) + v.subrange(i + 2, v.len() as int));
    } else {
        assert(i % (once.len() as int) == 0) by (nonlinear_arith)
            requires
                i == once.len(),
                i > 0,
        ;
        assert(spec_remove_edge(v, i) =~= v.subrange(1, i));
    }
}

/// Splitting the edge that starts at vertex `i` puts the new vertex right
/// after it.
pub fn split_edge<T>(vertices: &mut Vec<T>, i: usize, new_vertex: T)
    requires
        i < old(vertices)@.len(),
    ensures
        final(vertices)@ == old(vertices)@.insert(i + 1, new_vertex),
{
    let n = vertices.len();
    assert(i < n);
    vertices.insert(i + 1, new_vertex);
}

} // verus!
