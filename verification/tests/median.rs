use denoise::median::{median_filter_row_u16, median_filter_u16, Rgb16Image};
use denoise::rank::{median_of, sort_samples};

fn image(width: u32, height: u32, ch0: &[u16]) -> Rgb16Image {
    let mut data = Vec::new();
    for &v in ch0 {
        data.push(v);
        data.push(v + 1000);
        data.push(65535 - v);
    }
    Rgb16Image::from_raw(width, height, data).expect("sizes match")
}

fn channel(img: &Rgb16Image, c: usize) -> Vec<u16> {
    img.data.iter().skip(c).step_by(3).copied().collect()
}

#[test]
fn median_3x3_with_clamped_borders() {
    let img = image(3, 2, &[10, 40, 90, 200, 30, 5]);
    let out = median_filter_u16(&img, 3);
    assert_eq!(out.width, 3);
    assert_eq!(out.height, 2);
    assert_eq!(channel(&out, 0), vec![30, 40, 40, 40, 30, 30]);
    assert_eq!(channel(&out, 1), vec![1030, 1040, 1040, 1040, 1030, 1030]);
    assert_eq!(channel(&out, 2), vec![65505, 65495, 65495, 65495, 65505, 65505]);
}

#[test]
fn even_kernel_uses_half_width_radius() {
    let img = image(3, 2, &[10, 40, 90, 200, 30, 5]);
    assert_eq!(median_filter_u16(&img, 2).data, median_filter_u16(&img, 3).data);
    assert_eq!(median_filter_u16(&img, 4).data, median_filter_u16(&img, 5).data);
}

#[test]
fn kernel_below_two_is_identity() {
    let img = image(3, 2, &[10, 40, 90, 200, 30, 5]);
    assert_eq!(median_filter_u16(&img, 1).data, img.data);
    assert_eq!(median_filter_u16(&img, 0).data, img.data);
}

#[test]
fn flat_image_is_unchanged() {
    let img = image(4, 3, &[777; 12]);
    for k in 0..8 {
        assert_eq!(median_filter_u16(&img, k).data, img.data);
    }
}

#[test]
fn hot_pixel_is_removed() {
    let mut vals = [100u16; 9];
    vals[4] = 60000;
    let img = image(3, 3, &vals);
    let out = median_filter_u16(&img, 3);
    assert_eq!(channel(&out, 0), vec![100; 9]);
}

#[test]
fn wide_kernel_on_small_image() {
    let img = image(3, 2, &[10, 40, 90, 200, 30, 5]);
    let out = median_filter_u16(&img, 5);
    // Pixel (0, 0): rows 0,0,0,1,1 and columns 0,0,0,1,2.
    // Samples: 3 x [10,10,10,40,90] and 2 x [200,200,200,30,5]; sorted, rank 12 of 25 is 30.
    assert_eq!(channel(&out, 0)[0], 30);
}

#[test]
fn empty_image_gives_empty_result() {
    let img = Rgb16Image::from_raw(0, 5, Vec::new()).expect("empty");
    let out = median_filter_u16(&img, 3);
    assert_eq!(out.width, 0);
    assert_eq!(out.height, 5);
    assert!(out.data.is_empty());
}

#[test]
fn row_matches_full_filter() {
    let img = image(3, 2, &[10, 40, 90, 200, 30, 5]);
    let out = median_filter_u16(&img, 3);
    let row1 = median_filter_row_u16(&img, 3, 1);
    assert_eq!(row1, out.data[9..18].to_vec());
}

#[test]
fn from_raw_checks_length() {
    assert!(Rgb16Image::from_raw(2, 2, vec![0; 11]).is_none());
    assert!(Rgb16Image::from_raw(2, 2, vec![0; 13]).is_none());
    assert!(Rgb16Image::from_raw(2, 2, vec![0; 12]).is_some());
    assert!(Rgb16Image::from_raw(u32::MAX, u32::MAX, vec![0; 3]).is_none());
}

#[test]
fn median_of_picks_middle_rank() {
    assert_eq!(median_of(vec![5, 1, 4, 2, 3]), 3);
    assert_eq!(median_of(vec![9, 1, 4, 2]), 4);
    assert_eq!(median_of(vec![7]), 7);
    assert_eq!(median_of(vec![2, 2, 1, 1]), 2);
}

#[test]
fn sort_samples_orders() {
    let mut v = vec![3, 65535, 0, 3, 12, 7];
    sort_samples(&mut v);
    assert_eq!(v, vec![0, 3, 3, 7, 12, 65535]);
    let mut e: Vec<u16> = Vec::new();
    sort_samples(&mut e);
    assert!(e.is_empty());
}

#[test]
fn outputs_come_from_their_windows() {
    let vals = [3u16, 900, 17, 4, 4, 250, 61, 8, 1000, 5, 77, 2];
    let img = image(4, 3, &vals);
    let out = median_filter_u16(&img, 3);
    let ch0 = channel(&out, 0);
    for y in 0..3i64 {
        for x in 0..4i64 {
            let mut window = Vec::new();
            for dy in -1..=1i64 {
                for dx in -1..=1i64 {
                    let yy = (y + dy).clamp(0, 2) as usize;
                    let xx = (x + dx).clamp(0, 3) as usize;
                    window.push(vals[yy * 4 + xx]);
                }
            }
            let m = ch0[(y * 4 + x) as usize];
            assert!(window.contains(&m));
            let below = window.iter().filter(|&&v| v < m).count();
            let at_or_below = window.iter().filter(|&&v| v <= m).count();
            assert!(below <= 4 && 4 < at_or_below);
        }
    }
}
