use ray_tracer::image::Image;

#[test]
fn rgba8_buffer_in_pixel_order() {
    let img = Image::new(2, 1, vec![[1, 2, 3, 4], [5, 6, 7, 8]]);
    assert_eq!(img.dimension(), (2, 1));
    assert_eq!(img.to_rgba8_bytes(), vec![1, 2, 3, 4, 5, 6, 7, 8]);
    assert_eq!(img.pixels_rgba8().len(), 2);
}

#[test]
fn rgba8_buffer_of_empty_frame() {
    let img = Image::new(0, 3, vec![]);
    assert!(img.to_rgba8_bytes().is_empty());
}
