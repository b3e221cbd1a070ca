use ledmatrix::geometry::{fb_idx, Geometry, FRAME_SIZE_BYTES, FRAME_SIZE_WORDS, LED_COUNT, STRING_COUNT};

#[test]
fn fb_idx_even_row_runs_forward() {
    assert_eq!(fb_idx(0, 0), 0);
    assert_eq!(fb_idx(1, 0), 69);
    assert_eq!(fb_idx(0, 2), 3);
}

#[test]
fn fb_idx_odd_row_runs_mirrored() {
    // mirrored column 2*118-1-0 = 235, times 46/2 strings, times 3 bytes
    assert_eq!(fb_idx(0, 1), 16215);
    assert_eq!(fb_idx(117, 1), (118 * 23) * 3);
    assert_eq!(fb_idx(117, 45), (22 + 118 * 23) * 3);
}

#[test]
fn serpentine_mapping_is_a_bijection() {
    let mut seen = vec![false; FRAME_SIZE_BYTES];
    for x in 0..LED_COUNT {
        for y in 0..STRING_COUNT {
            let i = fb_idx(x, y);
            assert_eq!(i % 3, 0);
            assert!(i + 3 <= FRAME_SIZE_BYTES);
            assert!(!seen[i], "offset {} used twice", i);
            seen[i] = true;
        }
    }
    let used = seen.iter().filter(|b| **b).count();
    assert_eq!(used, LED_COUNT * STRING_COUNT);
}

#[test]
fn frame_sizes_of_deployed_geometry() {
    let g = Geometry::deployed();
    assert_eq!(g.frame_size_bytes(), 118 * 46 * 3);
    assert_eq!(g.frame_size_words(), 118 * 46 * 3 / 2);
    assert_eq!(FRAME_SIZE_WORDS, 8142);
}

#[test]
fn smaller_geometry_folds_the_same_way() {
    let g = Geometry { led_count: 4, string_count: 2 };
    assert_eq!(g.fb_idx(0, 0), 0);
    assert_eq!(g.fb_idx(3, 0), 9);
    assert_eq!(g.fb_idx(0, 1), 21);
    assert_eq!(g.fb_idx(3, 1), 12);
}
