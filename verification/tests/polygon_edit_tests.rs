use onscreen_ocr::polygon_edit::{hovered_from_hit, press_action, remove_edge, split_edge, PolygonHit, PressAction};

#[test]
fn right_press_removes_unless_too_few_vertices() {
    assert_eq!(press_action(true, PolygonHit::Vertex(2), true, 4, false), PressAction::RemoveVertex(2));
    assert_eq!(press_action(true, PolygonHit::Vertex(2), true, 3, false), PressAction::Ignore);
    assert_eq!(press_action(true, PolygonHit::Edge(1), true, 5, false), PressAction::RemoveEdge(1));
    assert_eq!(press_action(true, PolygonHit::Edge(1), true, 4, false), PressAction::Ignore);
}

#[test]
fn left_press_drags_or_splits() {
    assert_eq!(press_action(true, PolygonHit::Vertex(0), false, 4, true), PressAction::DragVertex(0));
    assert_eq!(press_action(true, PolygonHit::Edge(3), false, 4, false), PressAction::SplitEdge(3));
    assert_eq!(press_action(true, PolygonHit::Edge(3), false, 4, true), PressAction::DragEdge(3));
}

#[test]
fn press_on_nothing_or_in_box_mode_starts_or_moves_box() {
    assert_eq!(press_action(true, PolygonHit::Nothing, false, 4, false), PressAction::NewBox);
    assert_eq!(press_action(true, PolygonHit::Nothing, true, 4, true), PressAction::MoveSelection);
    assert_eq!(press_action(false, PolygonHit::Vertex(1), true, 9, false), PressAction::NewBox);
}

#[test]
fn hover_follows_hit() {
    assert_eq!(hovered_from_hit(PolygonHit::Vertex(4)), (None, Some(4)));
    assert_eq!(hovered_from_hit(PolygonHit::Edge(2)), (Some(2), None));
    assert_eq!(hovered_from_hit(PolygonHit::Nothing), (None, None));
}

#[test]
fn remove_edge_drops_both_ends() {
    let mut v = vec![0, 1, 2, 3, 4];
    remove_edge(&mut v, 1);
    assert_eq!(v, vec![0, 3, 4]);
    let mut w = vec![0, 1, 2, 3, 4];
    remove_edge(&mut w, 4);
    assert_eq!(w, vec![1, 2, 3]);
}

#[test]
fn split_edge_inserts_after_first_end() {
    let mut v = vec![10, 20, 30];
    split_edge(&mut v, 2, 99);
    assert_eq!(v, vec![10, 20, 30, 99]);
    split_edge(&mut v, 0, 5);
    assert_eq!(v, vec![10, 5, 20, 30, 99]);
}
