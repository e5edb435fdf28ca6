use ray_core::resolve::{nearest_hit, select_root};

/// Encodes a candidate distance as the ordered key the resolver compares.
///
/// For the distances the window admits — finite, nonnegative doubles — the
/// IEEE-754 bit pattern read as a `u64` is ordered exactly as the doubles
/// are, so the resolver's integer comparisons reproduce the floating-point
/// ones.  Negative distances map above the largest finite key and are
/// therefore rejected by the window test, just as the reference rejects a
/// root below the window's lower bound.
fn key(t: f64) -> u64 {
    let normalized = if t == 0.0 { 0.0f64 } else { t };
    normalized.to_bits()
}

/// The near root of the sphere quadratic for a ray `origin + t * dir`,
/// together with the sign of the discriminant.
fn near_root(center: [f64; 3], radius: f64, origin: [f64; 3], dir: [f64; 3]) -> (bool, f64) {
    let oc = [
        origin[0] - center[0],
        origin[1] - center[1],
        origin[2] - center[2],
    ];
    let a = dir[0] * dir[0] + dir[1] * dir[1] + dir[2] * dir[2];
    let half_b = oc[0] * dir[0] + oc[1] * dir[1] + oc[2] * dir[2];
    let c = oc[0] * oc[0] + oc[1] * oc[1] + oc[2] * oc[2] - radius * radius;
    let discriminant = half_b * half_b - a * c;
    (discriminant >= 0.0, (-half_b - discriminant.sqrt()) / a)
}

#[test]
fn key_order_matches_distance_order() {
    let samples = [0.0f64, 1e-300, 0.5, 1.0, 1.5, 2.0, 1e300, f64::MAX];
    for i in 0..samples.len() {
        for j in 0..samples.len() {
            assert_eq!(
                samples[i] < samples[j],
                key(samples[i]) < key(samples[j])
            );
        }
    }
}

#[test]
fn root_inside_window_is_accepted() {
    let r = select_root(true, key(1.5), key(0.0), key(f64::MAX));
    assert_eq!(r, Some(key(1.5)));
}

#[test]
fn root_at_lower_bound_is_accepted() {
    // both bounds are compared strictly on the reject side, so a root exactly
    // at the bound counts as inside the window
    assert_eq!(select_root(true, 7, 7, 10), Some(7));
    assert_eq!(select_root(true, 10, 7, 10), Some(10));
}

#[test]
fn root_outside_window_is_rejected() {
    assert_eq!(select_root(true, 6, 7, 10), None);
    assert_eq!(select_root(true, 11, 7, 10), None);
    // a negative root keys above every finite distance and falls out of the window
    assert_eq!(select_root(true, key(-0.5), key(0.0), key(f64::MAX)), None);
}

#[test]
fn negative_discriminant_is_rejected() {
    assert_eq!(select_root(false, key(1.0), key(0.0), key(f64::MAX)), None);
}

#[test]
fn unit_sphere_head_on_hit_at_distance_one() {
    // sphere at the origin, radius 1; ray from (0,0,2) toward (0,0,-1)
    let (real, root) = near_root([0.0, 0.0, 0.0], 1.0, [0.0, 0.0, 2.0], [0.0, 0.0, -1.0]);
    let r = select_root(real, key(root), key(0.0), key(f64::MAX));
    assert_eq!(r, Some(1.0f64.to_bits()));
    assert_eq!(f64::from_bits(r.unwrap()), 1.0);
}

#[test]
fn nearest_hit_of_an_empty_scene_is_none() {
    let candidates: Vec<Option<u64>> = Vec::new();
    assert_eq!(nearest_hit(&candidates), None);
}

#[test]
fn nearest_hit_when_every_primitive_misses_is_none() {
    assert_eq!(nearest_hit(&vec![None, None, None]), None);
}

#[test]
fn nearest_hit_takes_the_strictly_smaller_distance() {
    // two overlapping spheres along one ray from the origin
    let dir = [0.0, 0.0, -1.0];
    let (real_a, root_a) = near_root([0.0, 0.0, -1.0], 0.5, [0.0; 3], dir);
    let (real_b, root_b) = near_root([0.0, 0.0, -1.25], 0.5, [0.0; 3], dir);
    assert!(real_a && real_b);
    assert!(root_a < root_b);
    let candidates = vec![Some(key(root_b)), Some(key(root_a))];
    assert_eq!(nearest_hit(&candidates), Some(1));
}

#[test]
fn nearest_hit_breaks_ties_toward_scene_order() {
    let candidates = vec![None, Some(5u64), Some(5u64), Some(9u64)];
    assert_eq!(nearest_hit(&candidates), Some(1));
}
