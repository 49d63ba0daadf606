use sketch_assist::canvas::{CanvasTexture, Rgb};
use sketch_assist::sample::{model_input, red_channel, MODEL_INPUT_SIZE};

#[test]
fn red_channel_keeps_first_byte_of_each_pixel() {
    assert_eq!(red_channel(&vec![1, 2, 3, 4, 5, 6, 7, 8, 9]), vec![1, 4, 7]);
    assert_eq!(red_channel(&vec![1, 2, 3, 4]), vec![1]);
    assert_eq!(red_channel(&Vec::new()), Vec::<u8>::new());
}

#[test]
fn model_input_of_white_canvas_is_white_square() {
    let t = CanvasTexture::from_rgba(4, 3, vec![255; 48]).unwrap();
    let input = model_input(&t);
    assert_eq!(MODEL_INPUT_SIZE, 128);
    assert_eq!(input.len(), 128 * 128);
    assert!(input.iter().all(|&b| b == 255));
}

#[test]
fn model_input_keeps_left_dark_and_right_light() {
    let mut t = CanvasTexture::from_rgba(2, 1, vec![255; 8]).unwrap();
    t.set_pixel(0, 0, Rgb::black());
    let input = model_input(&t);
    assert_eq!(input.len(), 128 * 128);
    for row in 0..128 {
        assert!(input[row * 128] < 64);
        assert!(input[row * 128 + 127] > 191);
    }
}

#[test]
fn model_input_reads_the_red_channel() {
    let mut t = CanvasTexture::from_rgba(1, 1, vec![255; 4]).unwrap();
    t.set_pixel(0, 0, Rgb { r: 40, g: 200, b: 200 });
    let input = model_input(&t);
    assert!(input.iter().all(|&b| b == 40));
}
