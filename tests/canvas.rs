use sketch_assist::canvas::{CanvasTexture, Rgb};

fn filled(width: u32, height: u32, byte: u8) -> CanvasTexture {
    let data = vec![byte; (width * height * 4) as usize];
    CanvasTexture::from_rgba(width, height, data).expect("buffer of the right size")
}

fn rgb_at(bytes: &[u8], width: u32, x: u32, y: u32) -> (u8, u8, u8, u8) {
    let o = ((y * width + x) * 4) as usize;
    (bytes[o], bytes[o + 1], bytes[o + 2], bytes[o + 3])
}

#[test]
fn from_rgba_accepts_four_bytes_per_pixel() {
    let t = CanvasTexture::from_rgba(3, 2, vec![0; 24]).unwrap();
    assert_eq!(t.width(), 3);
    assert_eq!(t.height(), 2);
    assert_eq!(t.into_rgba().len(), 24);
}

#[test]
fn from_rgba_rejects_wrong_length() {
    assert!(CanvasTexture::from_rgba(3, 2, vec![0; 23]).is_none());
    assert!(CanvasTexture::from_rgba(3, 2, vec![0; 25]).is_none());
    assert!(CanvasTexture::from_rgba(u32::MAX, u32::MAX, vec![0; 4]).is_none());
}

#[test]
fn empty_canvas_is_accepted() {
    let t = CanvasTexture::from_rgba(0, 5, Vec::new()).unwrap();
    assert_eq!(t.into_rgba().len(), 0);
}

#[test]
fn set_pixel_writes_colour_and_keeps_alpha() {
    let mut t = filled(3, 2, 7);
    t.set_pixel(1, 1, Rgb::black());
    let bytes = t.into_rgba();
    assert_eq!(rgb_at(&bytes, 3, 1, 1), (0, 0, 0, 7));
    let changed: Vec<usize> = (0..bytes.len()).filter(|&k| bytes[k] != 7).collect();
    assert_eq!(changed, vec![16, 17, 18]);
}

#[test]
fn set_pixel_off_surface_leaves_canvas_unchanged() {
    let mut t = filled(3, 2, 7);
    t.set_pixel(-1, 0, Rgb::black());
    t.set_pixel(3, 0, Rgb::black());
    t.set_pixel(0, 2, Rgb::black());
    t.set_pixel(0, -1, Rgb::black());
    t.set_pixel(i32::MAX, i32::MIN, Rgb::black());
    assert!(t.into_rgba().iter().all(|&b| b == 7));
}

#[test]
fn set_pixel_writes_each_channel() {
    let mut t = filled(2, 2, 0);
    t.set_pixel(0, 1, Rgb { r: 10, g: 20, b: 30 });
    assert_eq!(rgb_at(&t.into_rgba(), 2, 0, 1), (10, 20, 30, 0));
}

#[test]
fn clear_whitens_every_pixel_and_keeps_alpha() {
    let mut data = Vec::new();
    for k in 0..(4 * 3 * 4) {
        data.push(k as u8);
    }
    let mut t = CanvasTexture::from_rgba(4, 3, data).unwrap();
    t.clear();
    let bytes = t.into_rgba();
    for k in 0..bytes.len() {
        if k % 4 == 3 {
            assert_eq!(bytes[k], k as u8);
        } else {
            assert_eq!(bytes[k], 255);
        }
    }
}

#[test]
fn stamp_inside_blackens_six_by_six_square() {
    let mut t = filled(10, 10, 255);
    t.stamp(2, 3);
    let bytes = t.into_rgba();
    for y in 0..10 {
        for x in 0..10 {
            let inside = (2..=7).contains(&x) && (3..=8).contains(&y);
            let expected = if inside { (0, 0, 0, 255) } else { (255, 255, 255, 255) };
            assert_eq!(rgb_at(&bytes, 10, x, y), expected, "pixel {} {}", x, y);
        }
    }
}

#[test]
fn stamp_is_clipped_at_the_edges() {
    let mut t = filled(10, 10, 255);
    t.stamp(7, -2);
    let bytes = t.into_rgba();
    let mut black = 0;
    for y in 0..10 {
        for x in 0..10 {
            let p = rgb_at(&bytes, 10, x, y);
            if p.0 == 0 {
                black += 1;
                assert!(x >= 7 && y <= 3, "pixel {} {}", x, y);
            }
        }
    }
    assert_eq!(black, 12);
}

#[test]
fn stamp_far_away_changes_nothing() {
    let mut t = filled(4, 4, 255);
    t.stamp(-100, 2);
    t.stamp(i32::MAX, i32::MAX);
    assert!(t.into_rgba().iter().all(|&b| b == 255));
}

#[test]
fn rgb_pixels_drops_alpha_in_row_order() {
    let data: Vec<u8> = (0..16).collect();
    let t = CanvasTexture::from_rgba(2, 2, data).unwrap();
    assert_eq!(t.rgb_pixels(), vec![0, 1, 2, 4, 5, 6, 8, 9, 10, 12, 13, 14]);
}
