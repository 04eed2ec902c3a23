use raytracer::{choose_root, distance_key, nearest_hit, Root};

#[test]
fn no_members_no_hit() {
    assert_eq!(nearest_hit(&vec![]), None);
}

#[test]
fn all_missed_no_hit() {
    assert_eq!(nearest_hit(&vec![None, None, None]), None);
}

#[test]
fn picks_least_key() {
    assert_eq!(nearest_hit(&vec![Some(9), None, Some(4), Some(7)]), Some(2));
    assert_eq!(nearest_hit(&vec![None, Some(1)]), Some(1));
    assert_eq!(nearest_hit(&vec![Some(u64::MAX), Some(0)]), Some(1));
}

#[test]
fn equal_keys_first_wins() {
    assert_eq!(nearest_hit(&vec![Some(5), Some(3), None, Some(3)]), Some(1));
    assert_eq!(nearest_hit(&vec![Some(2), Some(2)]), Some(0));
}

#[test]
fn distance_bits_order_as_distances() {
    let ts = [1000.5_f64, 0.001, 3.25, 0.75];
    let keys = ts.iter().map(|t| Some(distance_key(t.to_bits()))).collect::<Vec<_>>();
    assert_eq!(nearest_hit(&keys), Some(1));
}

#[test]
fn distance_keys_order_as_doubles() {
    let ts = [-1.0e300_f64, -2.5, -0.001, -0.0, 0.0, 1.0e-300, 0.5, 2.0, 1.0e300, f64::INFINITY];
    for w in ts.windows(2) {
        assert!(distance_key(w[0].to_bits()) < distance_key(w[1].to_bits()));
    }
    assert_eq!(distance_key(f64::NEG_INFINITY.to_bits()), 0x000f_ffff_ffff_ffff);
    assert_eq!(distance_key(0.0_f64.to_bits()), 0x8000_0000_0000_0000);
    assert_eq!(distance_key(1.0_f64.to_bits()), 0x8000_0000_0000_0000 | 1.0_f64.to_bits());
}

#[test]
fn nearest_of_mixed_sign_distances() {
    let ts = [0.25_f64, -3.0, 0.5];
    let keys = ts.iter().map(|t| Some(distance_key(t.to_bits()))).collect::<Vec<_>>();
    assert_eq!(nearest_hit(&keys), Some(1));
}

#[test]
fn near_root_first() {
    assert_eq!(choose_root(true, true), Some(Root::Near));
    assert_eq!(choose_root(true, false), Some(Root::Near));
    assert_eq!(choose_root(false, true), Some(Root::Far));
    assert_eq!(choose_root(false, false), None);
}
