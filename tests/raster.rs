use raytracer::ImageLayout;

#[test]
fn layout_fits() {
    let l = ImageLayout::new(4, 3, 2).unwrap();
    assert_eq!(l.pixel_count(), 12);
    assert_eq!(l.jitter_count(), 48);
}

#[test]
fn layout_too_large() {
    assert_eq!(ImageLayout::new(usize::MAX, 2, 1), None);
    assert_eq!(ImageLayout::new(usize::MAX / 2 + 1, 1, 1), None);
    assert_eq!(ImageLayout::new(1 << 20, 1 << 20, 1 << 30), None);
    assert!(ImageLayout::new(usize::MAX / 2, 1, 1).is_some());
}

#[test]
fn empty_sample_count_fits() {
    let l = ImageLayout::new(3, 3, 0).unwrap();
    assert_eq!(l.jitter_count(), 0);
}

#[test]
fn sample_index_formula() {
    let l = ImageLayout::new(1200, 800, 500).unwrap();
    assert_eq!(l.sample_index(0, 0, 0), 0);
    assert_eq!(l.sample_index(3, 2, 7), 2 * (1200 * 500) + 3 * 500 + 7);
    assert_eq!(l.sample_index(1199, 799, 499), 1200 * 800 * 500 - 1);
}

#[test]
fn jitter_slots_pair() {
    let l = ImageLayout::new(5, 4, 3).unwrap();
    assert_eq!(l.jitter_slots(0, 0, 0), (0, 1));
    assert_eq!(l.jitter_slots(1, 0, 2), (10, 11));
    assert_eq!(l.jitter_slots(4, 3, 2), (118, 119));
}

#[test]
fn every_draw_owned_once() {
    let l = ImageLayout::new(5, 4, 3).unwrap();
    let mut owner = vec![0u32; l.jitter_count()];
    for y in 0..4 {
        for x in 0..5 {
            for s in 0..3 {
                let (a, b) = l.jitter_slots(x, y, s);
                owner[a] += 1;
                owner[b] += 1;
            }
        }
    }
    assert!(owner.iter().all(|&c| c == 1));
}

#[test]
fn pixels_row_major_from_top() {
    let l = ImageLayout::new(3, 2, 1).unwrap();
    assert_eq!(
        l.pixel_order(),
        vec![(0, 0), (1, 0), (2, 0), (0, 1), (1, 1), (2, 1)]
    );
}

#[test]
fn empty_image_has_no_pixels() {
    let l = ImageLayout::new(0, 7, 4).unwrap();
    assert_eq!(l.pixel_order(), vec![]);
}
