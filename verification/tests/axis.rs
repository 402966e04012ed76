use resize_split::axis::Axis;

#[test]
fn primary_axis_lookups() {
    let a = Axis::Primary;
    assert_eq!(a.resize_dir(), "width");
    assert_eq!(a.flex_dir(), "row");
    assert_eq!(a.cursor(), "col-resize");
    assert_eq!(a.select_coordinate(17, 99), 17);
    assert_eq!(a.select_extent(1024, 768), 1024);
}

#[test]
fn secondary_axis_lookups() {
    let a = Axis::Secondary;
    assert_eq!(a.resize_dir(), "height");
    assert_eq!(a.flex_dir(), "column");
    assert_eq!(a.cursor(), "row-resize");
    assert_eq!(a.select_coordinate(17, 99), 99);
    assert_eq!(a.select_extent(1024, 768), 768);
}
