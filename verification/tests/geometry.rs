use bilateral_filter::BilateralFilter;
use bilateral_filter::Tap;

fn difference_as_weight(sigma: u8, difference: u8) -> u32 {
    (sigma as u32) * 1000 + difference as u32
}

fn offsets_as_weight(sigma: u8, i: i8, j: i8) -> u32 {
    (sigma as u32) * 1_000_000 + ((i as i32 + 128) as u32) * 1000 + (j as i32 + 128) as u32
}

fn largest_pixel(taps: Vec<Tap<u32>>) -> u8 {
    taps.iter().map(|tap| tap.pixel).max().unwrap_or(0)
}

fn always_nine(_taps: Vec<Tap<u32>>) -> u8 {
    9
}

fn ramp(width: u32, height: u32) -> Vec<u8> {
    (0..width * height).map(|p| (p % 251) as u8).collect()
}

#[test]
fn kernel_size_is_monotonic_odd_and_at_least_three() {
    let bf: BilateralFilter<u32> = BilateralFilter::new(1, 1, 0);
    let mut previous: u8 = 0;
    for sigma in 0..=255u8 {
        let size = bf.calculate_kernel_size(sigma);
        assert!(size >= 3);
        assert_eq!(size % 2, 1);
        assert!(size >= previous);
        previous = size;
    }
}

#[test]
fn kernel_size_exact_values() {
    let bf: BilateralFilter<u32> = BilateralFilter::new(1, 1, 0);
    let cases: [(u8, u8); 14] = [
        (0, 3),
        (1, 3),
        (2, 3),
        (3, 5),
        (4, 7),
        (5, 9),
        (8, 15),
        (9, 17),
        (20, 39),
        (21, 39),
        (130, 253),
        (131, 255),
        (132, 255),
        (255, 255),
    ];
    for (sigma, size) in cases {
        assert_eq!(bf.calculate_kernel_size(sigma), size, "sigma = {}", sigma);
    }
}

#[test]
fn new_filter_is_zeroed() {
    let bf: BilateralFilter<u32> = BilateralFilter::new(4, 3, 0);
    assert_eq!(bf.kernel_size(), 3);
    assert_eq!(bf.half_kernel_size(), 1);
    assert_eq!(bf.image_width(), 4);
    assert_eq!(bf.image_height(), 3);
    assert_eq!(bf.input_data(), &vec![0u8; 12]);
    assert_eq!(bf.output_data(), &vec![0u8; 12]);
    assert_eq!(bf.intensity_lut(), &vec![0u32; 256]);
    assert_eq!(bf.spatial_lut(), &vec![0u32; 255]);
}

#[test]
fn set_kernel_size_keeps_the_radius_in_step() {
    let mut bf: BilateralFilter<u32> = BilateralFilter::new(4, 3, 0);
    for size in [3u8, 5, 7, 15, 17, 253, 255] {
        bf.set_kernel_size(size);
        assert_eq!(bf.kernel_size(), size);
        assert_eq!(bf.half_kernel_size(), size / 2);
    }
}

#[test]
fn set_sigma_sets_window_and_both_tables() {
    let mut bf: BilateralFilter<u32> = BilateralFilter::new(6, 6, 0);
    bf.set_sigma(3, 7, &difference_as_weight, &offsets_as_weight);
    assert_eq!(bf.kernel_size(), 5);
    assert_eq!(bf.half_kernel_size(), 2);
    for d in 0..255usize {
        assert_eq!(bf.intensity_lut()[d], 7000 + d as u32);
    }
    assert_eq!(bf.intensity_lut()[255], 0);
    assert_eq!(bf.spatial_lut()[0], 3_000_000 + 126 * 1000 + 126);
    assert_eq!(bf.spatial_lut()[3], 3_000_000 + 126 * 1000 + 129);
    assert_eq!(bf.spatial_lut()[4], 3_000_000 + 127 * 1000 + 126);
    assert_eq!(bf.spatial_lut()[15], 3_000_000 + 129 * 1000 + 129);
    assert_eq!(bf.spatial_lut()[16], 0);
}

#[test]
fn spatial_lut_keeps_entries_behind_the_filled_prefix() {
    let mut bf: BilateralFilter<u32> = BilateralFilter::new(6, 6, 0);
    bf.set_sigma(4, 1, &difference_as_weight, &offsets_as_weight);
    assert_eq!(bf.kernel_size(), 7);
    let wide = bf.spatial_lut().clone();
    assert_ne!(wide[35], 0);
    assert_eq!(wide[36], 0);
    bf.set_sigma(3, 1, &difference_as_weight, &offsets_as_weight);
    let narrow = bf.spatial_lut();
    for k in 0..16usize {
        assert_eq!(narrow[k] / 1_000_000, 3);
    }
    for k in 16..255usize {
        assert_eq!(narrow[k], wide[k]);
    }
}

#[test]
fn spatial_lut_stops_at_the_end_of_the_table() {
    let mut bf: BilateralFilter<u32> = BilateralFilter::new(6, 6, 0);
    bf.set_sigma(9, 1, &difference_as_weight, &offsets_as_weight);
    assert_eq!(bf.kernel_size(), 17);
    assert_eq!(bf.half_kernel_size(), 8);
    assert_eq!(bf.spatial_lut().len(), 255);
    assert_eq!(bf.spatial_lut()[0], 9_000_000 + 120 * 1000 + 120);
    assert_eq!(bf.spatial_lut()[254], 9_000_000 + 135 * 1000 + 134);
    assert!(!bf.window_fits_table());
}

#[test]
fn window_reads_more_entries_than_a_rebuild_fills() {
    let mut bf: BilateralFilter<u32> = BilateralFilter::new(6, 6, 0);
    bf.set_sigma(3, 7, &difference_as_weight, &offsets_as_weight);
    assert!(bf.set_input_data(ramp(6, 6)));
    let side = bf.kernel_size() as usize;
    let filled = (2 * bf.half_kernel_size() as usize) * (2 * bf.half_kernel_size() as usize);
    let taps = bf.window_taps(0, 14);
    assert_eq!(taps.len(), side * side);
    assert_eq!(taps.len(), 25);
    assert_eq!(filled, 16);
    for k in 0..taps.len() {
        assert_eq!(taps[k].spatial, bf.spatial_lut()[k]);
        assert_eq!(taps[k].pixel, ((k / 5) * 6 + k % 5) as u8);
        let difference = (taps[k].pixel as i32 - 14).unsigned_abs();
        assert_eq!(taps[k].intensity, 7000 + difference);
        if k < filled {
            assert_ne!(taps[k].spatial, 0);
        } else {
            assert_eq!(taps[k].spatial, 0);
        }
    }
}

#[test]
fn default_window_reads_nine_entries_of_which_four_are_filled() {
    let mut bf: BilateralFilter<u32> = BilateralFilter::new(3, 3, 0);
    bf.calculate_gauss_spatial_lut(1, &offsets_as_weight);
    let taps = bf.window_taps(0, 0);
    assert_eq!(taps.len(), 9);
    let filled: Vec<bool> = taps.iter().map(|tap| tap.spatial != 0).collect();
    assert_eq!(filled, vec![true, true, true, true, false, false, false, false, false]);
    assert_eq!(taps[0].spatial, 1_000_000 + 127 * 1000 + 127);
    assert_eq!(taps[1].spatial, 1_000_000 + 127 * 1000 + 128);
    assert_eq!(taps[2].spatial, 1_000_000 + 128 * 1000 + 127);
    assert_eq!(taps[3].spatial, 1_000_000 + 128 * 1000 + 128);
}

#[test]
fn run_leaves_the_border_untouched() {
    let mut bf: BilateralFilter<u32> = BilateralFilter::new(7, 6, 0);
    assert!(bf.set_input_data(ramp(7, 6)));
    bf.run(&always_nine);
    for row in 0..6usize {
        for column in 0..7usize {
            let interior = (1..5).contains(&row) && (1..6).contains(&column);
            let expected = if interior { 9 } else { 0 };
            assert_eq!(bf.output_data()[row * 7 + column], expected, "({}, {})", row, column);
        }
    }
}

#[test]
fn run_keeps_stale_values_where_the_window_has_grown() {
    let mut bf: BilateralFilter<u32> = BilateralFilter::new(7, 6, 0);
    assert!(bf.set_input_data(ramp(7, 6)));
    bf.run(&always_nine);
    bf.set_sigma(3, 1, &difference_as_weight, &offsets_as_weight);
    bf.run(&largest_pixel);
    for row in 0..6usize {
        for column in 0..7usize {
            let p = row * 7 + column;
            let inner = (2..4).contains(&row) && (2..5).contains(&column);
            let ring = (1..5).contains(&row) && (1..6).contains(&column);
            let expected = if inner {
                ((row + 2) * 7 + column + 2) as u8
            } else if ring {
                9
            } else {
                0
            };
            assert_eq!(bf.output_data()[p], expected, "({}, {})", row, column);
        }
    }
}

#[test]
fn run_does_nothing_where_the_image_is_smaller_than_the_window() {
    let mut bf: BilateralFilter<u32> = BilateralFilter::new(2, 5, 0);
    assert!(bf.set_input_data(ramp(2, 5)));
    bf.run(&always_nine);
    assert_eq!(bf.output_data(), &vec![0u8; 10]);
    let mut flat: BilateralFilter<u32> = BilateralFilter::new(5, 0, 0);
    flat.run(&always_nine);
    assert_eq!(flat.output_data().len(), 0);
    let mut shallow: BilateralFilter<u32> = BilateralFilter::new(9, 1, 0);
    shallow.run(&always_nine);
    assert_eq!(shallow.output_data(), &vec![0u8; 9]);
    let mut crowded: BilateralFilter<u32> = BilateralFilter::new(16, 16, 0);
    crowded.set_sigma(9, 1, &difference_as_weight, &offsets_as_weight);
    assert!(!crowded.window_fits_table());
    assert!(!crowded.has_interior());
    crowded.run(&always_nine);
    assert_eq!(crowded.output_data(), &vec![0u8; 256]);
    crowded.set_kernel_size(15);
    assert!(crowded.has_interior());
    crowded.run(&always_nine);
    assert_eq!(crowded.output_data().iter().filter(|&&value| value == 9).count(), 4);
}

#[test]
fn run_does_not_change_the_input() {
    let mut bf: BilateralFilter<u32> = BilateralFilter::new(7, 6, 0);
    assert!(bf.set_input_data(ramp(7, 6)));
    bf.run(&largest_pixel);
    assert_eq!(bf.input_data(), &ramp(7, 6));
    assert_eq!(bf.output_data()[8], 16);
}

#[test]
fn set_input_data_wants_one_byte_for_each_pixel() {
    let mut bf: BilateralFilter<u32> = BilateralFilter::new(3, 2, 0);
    assert!(!bf.set_input_data(vec![1u8; 5]));
    assert_eq!(bf.input_data(), &vec![0u8; 6]);
    assert!(!bf.set_input_data(vec![1u8; 7]));
    assert_eq!(bf.input_data(), &vec![0u8; 6]);
    assert!(bf.set_input_data(vec![1u8; 6]));
    assert_eq!(bf.input_data(), &vec![1u8; 6]);
}

#[test]
fn window_fits_image_tells_where_a_window_ends() {
    let mut bf: BilateralFilter<u32> = BilateralFilter::new(6, 6, 0);
    assert!(bf.window_fits_image(0));
    assert!(bf.window_fits_image(21));
    assert!(!bf.window_fits_image(22));
    bf.set_kernel_size(5);
    assert!(bf.window_fits_image(7));
    assert!(!bf.window_fits_image(8));
    assert!(bf.window_fits_table());
    bf.set_kernel_size(15);
    assert!(bf.window_fits_table());
    assert!(!bf.window_fits_image(0));
    bf.set_kernel_size(17);
    assert!(!bf.window_fits_table());
}
