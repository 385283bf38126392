use ray_tracer::scene::Scene;

fn key(t: f32) -> Option<u32> {
    Some(t.to_bits())
}

#[test]
fn nearest_of_three_spheres_in_any_order() {
    // Three spheres along the ray, at distances 2, 4 and 6.
    let spheres = [("near", 2.0f32), ("middle", 4.0f32), ("far", 6.0f32)];
    let orders = [[0, 1, 2], [0, 2, 1], [1, 0, 2], [1, 2, 0], [2, 0, 1], [2, 1, 0]];
    for order in orders.iter() {
        let entities: Vec<&str> = order.iter().map(|&k| spheres[k].0).collect();
        let hits: Vec<Option<u32>> = order.iter().map(|&k| key(spheres[k].1)).collect();
        let scene = Scene::from_list(entities);
        let i = scene.ray_cast(&hits).expect("the ray hits");
        assert_eq!(scene.entities()[i], "near");
    }
}

#[test]
fn ray_cast_skips_misses() {
    let scene = Scene::from_list(vec!['a', 'b', 'c']);
    let hits = vec![None, key(7.5), None];
    assert_eq!(scene.ray_cast(&hits), Some(1));
}

#[test]
fn ray_cast_misses_everything() {
    let scene = Scene::from_list(vec![1u8, 2, 3]);
    assert_eq!(scene.ray_cast(&vec![None, None, None]), None);
    let empty: Scene<u8> = Scene::_new();
    assert_eq!(empty.ray_cast(&vec![]), None);
}

#[test]
fn ray_cast_prefers_first_of_equal_hits() {
    let scene = Scene::from_list(vec!['a', 'b', 'c']);
    let hits = vec![key(3.0), key(1.0), key(1.0)];
    assert_eq!(scene.ray_cast(&hits), Some(1));
}
