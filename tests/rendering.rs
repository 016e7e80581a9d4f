use mandelbrot::raster::{fill_pixel, pixel_count, pixel_position, render, render_sequential};
use mandelbrot::{Color, Palette, RenderError};

/// Escape counts of a `width` by `height` grid over the given rectangle.
fn escape_counts(width: u32, height: u32, x1: f64, y1: f64, x2: f64, y2: f64, max: u32) -> Vec<u32> {
    let scale_x = (x2 - x1) / width as f64;
    let scale_y = (y2 - y1) / height as f64;
    let mut counts = Vec::new();
    for i in 0..(width as usize * height as usize) {
        let (px, py) = pixel_position(i, width, height);
        let cx = x1 + px as f64 * scale_x;
        let cy = y1 + py as f64 * scale_y;
        let (mut x, mut y, mut n) = (0.0f64, 0.0f64, 0u32);
        while x * x + y * y <= 4.0 && n < max {
            let x_next = x * x - y * y + cx;
            y = 2.0 * x * y + cy;
            x = x_next;
            n += 1;
        }
        counts.push(n);
    }
    counts
}

#[test]
fn pixel_position_is_row_major() {
    assert_eq!(pixel_position(0, 4, 3), (0, 0));
    assert_eq!(pixel_position(5, 4, 3), (1, 1));
    assert_eq!(pixel_position(11, 4, 3), (3, 2));
    // rows are counted by the width, also when the image is not square
    assert_eq!(pixel_position(7, 5, 2), (2, 1));
    assert_eq!(pixel_position(9, 2, 5), (1, 4));
}

#[test]
fn pixel_count_checks_size() {
    assert_eq!(pixel_count(4, 3), Ok(12));
    assert_eq!(pixel_count(0, 3), Err(RenderError::ZeroWidth));
    assert_eq!(pixel_count(3, 0), Err(RenderError::ZeroHeight));
    assert_eq!(pixel_count(0, 0), Err(RenderError::ZeroWidth));
    if usize::BITS == 64 {
        assert_eq!(pixel_count(u32::MAX, u32::MAX), Err(RenderError::TooLarge));
    }
}

#[test]
fn render_rejects_bad_parameters() {
    let p = Palette::direct(10).unwrap();
    assert_eq!(render(0, 4, &vec![0; 0], &p), Err(RenderError::ZeroWidth));
    assert_eq!(render(4, 0, &vec![0; 0], &p), Err(RenderError::ZeroHeight));
    assert_eq!(render(4, 4, &vec![0; 15], &p), Err(RenderError::CountMismatch));
    assert_eq!(render(4, 4, &vec![0; 17], &p), Err(RenderError::CountMismatch));
    if usize::BITS == 64 {
        assert_eq!(render(u32::MAX, u32::MAX, &Vec::new(), &p), Err(RenderError::TooLarge));
    }
}

#[test]
fn render_four_by_four_direct() {
    let counts = escape_counts(4, 4, -2.0, -1.12, 0.47, 1.12, 10);
    let p = Palette::direct(10).unwrap();
    let buf = render(4, 4, &counts, &p).unwrap();
    assert_eq!(buf.len(), 48);
    // the corner (-2.0, -1.12) leaves the radius-2 disc after one step
    assert_eq!(counts[0], 1);
    assert_eq!(&buf[0..3], &[0x19, 0x99, 0x99]);
    for (i, &n) in counts.iter().enumerate() {
        assert!(n <= 10);
        let c = p.lookup(n);
        assert_eq!(&buf[3 * i..3 * i + 3], &[c.red, c.green, c.blue]);
    }
}

#[test]
fn render_lays_out_channels() {
    let p = Palette::direct(10).unwrap();
    let buf = render(3, 1, &vec![0, 5, 10], &p).unwrap();
    assert_eq!(buf, vec![0, 0, 0, 0x80, 0, 0, 0, 0, 0]);
}

#[test]
fn render_gradient_in_set_black() {
    let mut samples = vec![Color::new(255, 255, 255); 4];
    samples[0] = Color::new(0, 0, 38);
    samples[1] = Color::new(10, 20, 30);
    let p = Palette::gradient(3, samples).unwrap();
    let buf = render(2, 2, &vec![0, 1, 3, 2], &p).unwrap();
    assert_eq!(buf, vec![0, 0, 38, 10, 20, 30, 0, 0, 0, 255, 255, 255]);
}

#[test]
fn render_twice_is_identical() {
    let counts = escape_counts(8, 6, -0.8, -0.3, 0.2, 0.5, 50);
    let p = Palette::direct(50).unwrap();
    let a = render(8, 6, &counts, &p).unwrap();
    let b = render(8, 6, &counts, &p).unwrap();
    assert_eq!(a, b);
    let mut rev = counts.clone();
    rev.reverse();
    let c = render(8, 6, &rev, &p).unwrap();
    for i in 0..48 {
        assert_eq!(&c[3 * i..3 * i + 3], &a[3 * (47 - i)..3 * (47 - i) + 3]);
    }
}

#[test]
fn render_same_across_thread_counts() {
    let counts = escape_counts(16, 9, -2.0, -1.12, 0.47, 1.12, 40);
    let p = Palette::direct(40).unwrap();
    let sequential = render_sequential(16, 9, &counts, &p).unwrap();
    let one = rayon::ThreadPoolBuilder::new().num_threads(1).build().unwrap();
    let four = rayon::ThreadPoolBuilder::new().num_threads(4).build().unwrap();
    let a = one.install(|| render(16, 9, &counts, &p)).unwrap();
    let b = four.install(|| render(16, 9, &counts, &p)).unwrap();
    assert_eq!(sequential.len(), 16 * 9 * 3);
    assert_eq!(a, sequential);
    assert_eq!(b, sequential);
}

#[test]
fn render_sequential_rejects_bad_parameters() {
    let p = Palette::direct(10).unwrap();
    assert_eq!(render_sequential(0, 4, &Vec::new(), &p), Err(RenderError::ZeroWidth));
    assert_eq!(render_sequential(4, 0, &Vec::new(), &p), Err(RenderError::ZeroHeight));
    assert_eq!(render_sequential(2, 2, &vec![1; 3], &p), Err(RenderError::CountMismatch));
    assert_eq!(render_sequential(3, 1, &vec![0, 5, 10], &p).unwrap(), vec![0, 0, 0, 0x80, 0, 0, 0, 0, 0]);
}

#[test]
fn fill_pixel_writes_three_channels() {
    let p = Palette::direct(10).unwrap();
    let mut pixel = [7u8, 7, 7];
    fill_pixel(&mut pixel, &p, 1);
    assert_eq!(pixel, [0x19, 0x99, 0x99]);
    fill_pixel(&mut pixel, &p, 10);
    assert_eq!(pixel, [0, 0, 0]);
}
