use chimper::resize::ResizeMode;

#[test]
fn idle_moves_no_edge() {
    let m = ResizeMode::Idle;
    assert!(!m.top() && !m.bottom() && !m.left() && !m.right());
}

#[test]
fn edges_move_only_themselves() {
    assert!(ResizeMode::Top.top());
    assert!(!ResizeMode::Top.bottom());
    assert!(!ResizeMode::Top.left());
    assert!(!ResizeMode::Top.right());
    assert!(ResizeMode::Left.left());
    assert!(!ResizeMode::Left.top());
    assert!(ResizeMode::Right.right());
    assert!(ResizeMode::Bottom.bottom());
}

#[test]
fn corners_move_both_their_edges() {
    assert!(ResizeMode::TopLeft.top() && ResizeMode::TopLeft.left());
    assert!(!ResizeMode::TopLeft.bottom() && !ResizeMode::TopLeft.right());
    assert!(ResizeMode::TopRight.top() && ResizeMode::TopRight.right());
    assert!(ResizeMode::BottomLeft.bottom() && ResizeMode::BottomLeft.left());
    assert!(ResizeMode::BottomRight.bottom() && ResizeMode::BottomRight.right());
    assert!(!ResizeMode::BottomRight.top() && !ResizeMode::BottomRight.left());
}
