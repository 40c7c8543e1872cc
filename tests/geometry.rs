use katke_desktop::geometry::{Panel, Vec2};

#[test]
fn vec2_new_keeps_coordinates() {
    let v = Vec2::new(10, 15);
    assert_eq!(v.x, 10);
    assert_eq!(v.y, 15);
}

#[test]
fn panel_new_keeps_corners_and_z_index() {
    let p = Panel::new(Vec2::new(10, 15), Vec2::new(20, 25), 81);
    assert_eq!(p.position1, Vec2::new(10, 15));
    assert_eq!(p.position2, Vec2::new(20, 25));
    assert_eq!(p.z_index, 81);
}
