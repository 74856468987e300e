use flov::config::{default_sample_rate, AudioConfig};
use flov::icon::{disc_rgba, ICON_SIZE};

fn pixel(px: &[u8], x: usize, y: usize) -> [u8; 4] {
    let i = (y * 32 + x) * 4;
    [px[i], px[i + 1], px[i + 2], px[i + 3]]
}

#[test]
fn disc_icon_pixels() {
    let px = disc_rgba(220, 50, 50);
    assert_eq!(px.len(), (ICON_SIZE * ICON_SIZE * 4) as usize);
    assert_eq!(pixel(&px, 16, 16), [220, 50, 50, 255]);
    assert_eq!(pixel(&px, 0, 0), [0, 0, 0, 0]);
    assert_eq!(pixel(&px, 2, 16), [220, 50, 50, 255]);
    assert_eq!(pixel(&px, 1, 16), [0, 0, 0, 0]);
    assert_eq!(pixel(&px, 30, 16), [220, 50, 50, 255]);
    assert_eq!(pixel(&px, 31, 16), [0, 0, 0, 0]);
    // Same disc as the distance test in single precision.
    for y in 0..32 {
        for x in 0..32 {
            let dx = x as f32 - 16.0;
            let dy = y as f32 - 16.0;
            let inside = (dx * dx + dy * dy).sqrt() <= 14.0;
            let p = pixel(&px, x, y);
            assert_eq!(p[3] == 255, inside);
        }
    }
}

#[test]
fn default_rate_is_model_rate() {
    assert_eq!(default_sample_rate(), 16000);
    let a = AudioConfig { sample_rate: default_sample_rate() };
    assert_eq!(a.sample_rate, 16000);
}

