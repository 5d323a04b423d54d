use raycast::frame::compose_frame;
use raycast::pixel::Pixel;

#[test]
fn background_where_nothing_is_hit() {
    let shades = vec![Pixel::gray_level(200), Pixel::gray_level(10)];
    let nearest = vec![None, Some(1), Some(0), None];
    let frame = compose_frame(&nearest, &shades, Pixel::blue());
    assert_eq!(
        frame,
        vec![Pixel::blue(), Pixel::gray_level(10), Pixel::gray_level(200), Pixel::blue()]
    );
}

#[test]
fn empty_mesh_gives_background_only() {
    let nearest = vec![None; 16];
    let frame = compose_frame(&nearest, &Vec::new(), Pixel(1, 2, 3, 4));
    assert_eq!(frame.len(), 16);
    assert!(frame.iter().all(|p| *p == Pixel(1, 2, 3, 4)));
}

#[test]
fn composing_twice_gives_the_same_bytes() {
    let shades = vec![Pixel::gray_level(90)];
    let nearest = vec![Some(0), None, Some(0), None];
    let first = compose_frame(&nearest, &shades, Pixel::blue());
    let second = compose_frame(&nearest, &shades, Pixel::blue());
    assert_eq!(first, second);
}
