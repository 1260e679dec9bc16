use space_invaders::components::{WallBundle, WallLocation};

#[test]
fn wall_positions_sit_on_the_arena_edges() {
    let left = WallLocation::Left.position();
    assert_eq!((left.x, left.y), (-450_000, 0));
    let right = WallLocation::Right.position();
    assert_eq!((right.x, right.y), (450_000, 0));
    let bottom = WallLocation::Bottom.position();
    assert_eq!((bottom.x, bottom.y), (0, -300_000));
    let top = WallLocation::Top.position();
    assert_eq!((top.x, top.y), (0, 300_000));
}

#[test]
fn wall_positions_in_space_carry_no_depth() {
    let p = WallLocation::Left.position_3d();
    assert_eq!((p.x, p.y, p.z), (-450_000, 0, 0));
    let q = WallLocation::Top.position_3d();
    assert_eq!((q.x, q.y, q.z), (0, 300_000, 0));
}

#[test]
fn wall_sizes_span_the_arena_plus_one_thickness() {
    let side = WallLocation::Left.size();
    assert_eq!((side.x, side.y), (10_000, 610_000));
    let side = WallLocation::Right.size();
    assert_eq!((side.x, side.y), (10_000, 610_000));
    let flat = WallLocation::Bottom.size();
    assert_eq!((flat.x, flat.y), (910_000, 10_000));
    let flat = WallLocation::Top.size();
    assert_eq!((flat.x, flat.y), (910_000, 10_000));
}

#[test]
fn a_wall_bundle_carries_its_rectangle() {
    let b = WallBundle::new(WallLocation::Bottom);
    assert_eq!((b.rect.center.x, b.rect.center.y), (0, -300_000));
    assert_eq!((b.rect.size.x, b.rect.size.y), (910_000, 10_000));
}
