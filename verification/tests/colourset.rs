use squish::colourset::{ColourSet, WEIGHT_ONE};

fn tile_of(pixels: [[u8; 4]; 4]) -> [[u8; 4]; 16] {
    let mut rgba = [[0u8; 4]; 16];
    for i in 0..16 {
        rgba[i] = pixels[i % 4];
    }
    rgba
}

#[test]
fn colours_come_in_the_order_of_first_appearance() {
    let rgba = tile_of([[1, 2, 3, 255], [4, 5, 6, 255], [1, 2, 3, 255], [7, 8, 9, 255]]);
    let set = ColourSet::new(&rgba, 0xFFFF, false, false);
    assert_eq!(set.count(), 3);
    assert_eq!(set.point(0), [1, 2, 3]);
    assert_eq!(set.point(1), [4, 5, 6]);
    assert_eq!(set.point(2), [7, 8, 9]);
    assert_eq!(set.weight(0), 8 * WEIGHT_ONE);
    assert_eq!(set.weight(1), 4 * WEIGHT_ONE);
    assert_eq!(set.weight(2), 4 * WEIGHT_ONE);
    assert!(!set.is_transparent());
    let mut source = [0u8; 16];
    source[0] = 2;
    source[1] = 0;
    source[2] = 1;
    assert_eq!(set.remap_indices(&source), [2, 0, 2, 1, 2, 0, 2, 1, 2, 0, 2, 1, 2, 0, 2, 1]);
}

#[test]
fn masked_pixels_are_left_out() {
    let rgba = tile_of([[1, 2, 3, 255], [4, 5, 6, 255], [1, 2, 3, 255], [7, 8, 9, 255]]);
    // only the pixels 1 and 3 of each row
    let set = ColourSet::new(&rgba, 0xAAAA, true, false);
    assert_eq!(set.count(), 2);
    assert_eq!(set.point(0), [4, 5, 6]);
    assert_eq!(set.point(1), [7, 8, 9]);
    assert!(!set.is_transparent());
    let mut source = [0u8; 16];
    source[0] = 1;
    source[1] = 2;
    assert_eq!(set.remap_indices(&source), [3, 1, 3, 2, 3, 1, 3, 2, 3, 1, 3, 2, 3, 1, 3, 2]);
}

#[test]
fn transparent_pixels_are_left_out_of_bc1_only() {
    let rgba = tile_of([[1, 2, 3, 127], [4, 5, 6, 128], [1, 2, 3, 255], [7, 8, 9, 0]]);
    let set = ColourSet::new(&rgba, 0xFFFF, true, false);
    assert_eq!(set.count(), 2);
    assert_eq!(set.point(0), [4, 5, 6]);
    assert_eq!(set.point(1), [1, 2, 3]);
    assert_eq!(set.weight(1), 4 * WEIGHT_ONE);
    assert!(set.is_transparent());
    let set = ColourSet::new(&rgba, 0xFFFF, false, false);
    assert_eq!(set.count(), 3);
    assert_eq!(set.weight(0), 8 * WEIGHT_ONE);
    assert!(!set.is_transparent());
}

#[test]
fn a_transparent_pixel_behind_the_mask_does_not_count() {
    let rgba = tile_of([[1, 2, 3, 0], [4, 5, 6, 255], [4, 5, 6, 255], [4, 5, 6, 255]]);
    let set = ColourSet::new(&rgba, 0xEEEE, true, false);
    assert_eq!(set.count(), 1);
    assert!(!set.is_transparent());
}

#[test]
fn weights_follow_alpha() {
    let rgba = tile_of([[1, 2, 3, 255], [1, 2, 3, 0], [4, 5, 6, 51], [4, 5, 6, 1]]);
    let set = ColourSet::new(&rgba, 0x000F, false, true);
    assert_eq!(set.count(), 2);
    // 255/255 and 1/256
    assert_eq!(set.weight(0), 65280 + 255);
    // 51/255 and 1/255
    assert_eq!(set.weight(1), 13056 + 256);
    assert_eq!(WEIGHT_ONE, 65280);
}

#[test]
fn a_set_may_be_empty_or_full() {
    let mut rgba = [[0u8; 4]; 16];
    for i in 0..16 {
        rgba[i] = [i as u8, 0, 0, 255];
    }
    let set = ColourSet::new(&rgba, 0, false, false);
    assert_eq!(set.count(), 0);
    assert_eq!(set.remap_indices(&[0; 16]), [3; 16]);
    let set = ColourSet::new(&rgba, 0xFFFF, false, false);
    assert_eq!(set.count(), 16);
    for i in 0..16 {
        assert_eq!(set.point(i), [i as u8, 0, 0]);
        assert_eq!(set.weight(i), WEIGHT_ONE);
    }
}
