use image_browser::geometry::{ImageSize, Shape, Vertex};

fn corner(x_num: i64, x_den: u32, y: i8, u: u8, v: u8) -> Vertex {
    Vertex { x_num, x_den, y, u, v }
}

#[test]
fn rectangle_has_two_triangles_of_the_aspect_ratio() {
    let shape = Shape::new_rectangle(ImageSize { width: 4, height: 3 });
    let expected = vec![
        corner(-4, 3, 1, 0, 1),
        corner(-4, 3, -1, 0, 0),
        corner(4, 3, -1, 1, 0),
        corner(4, 3, -1, 1, 0),
        corner(4, 3, 1, 1, 1),
        corner(-4, 3, 1, 0, 1),
    ];
    assert_eq!(shape.vertices(), &expected);
}

#[test]
fn rectangle_extent_is_width_over_height() {
    let shape = Shape::new_rectangle(ImageSize { width: 1920, height: 1080 });
    for v in shape.vertices() {
        assert_eq!(v.x_den, 1080);
        assert_eq!(v.x_num.abs(), 1920);
        assert_eq!(v.x_num as f64 / v.x_den as f64, if v.x_num > 0 { 16.0 / 9.0 } else { -16.0 / 9.0 });
    }
}

#[test]
fn rectangle_of_the_largest_size() {
    let shape = Shape::new_rectangle(ImageSize { width: u32::MAX, height: u32::MAX });
    assert_eq!(shape.vertices()[0], corner(-(u32::MAX as i64), u32::MAX, 1, 0, 1));
    assert_eq!(shape.vertices()[2], corner(u32::MAX as i64, u32::MAX, -1, 1, 0));
}
