//! Scenario tests that drive the kernel the way a host layer does: the
//! floating-point escape-time iteration runs here, feeding per-pixel
//! outcomes to the verified renderer.

use fractal::FractalRenderer;
use fractal::FractalType;
use fractal::PixelOutcome;

const BLACK: u32 = 0xFF000000;
const BAILOUT: f64 = 256.0;

fn smooth(i: usize, z_re2: f64, z_im2: f64) -> f64 {
    let log_zn = (z_re2 + z_im2).ln() * 0.5;
    let nu = log_zn.ln() * std::f64::consts::LOG2_E;
    i as f64 + 1.0 - nu
}

fn in_cardioid_or_bulb(c_re: f64, c_im: f64) -> bool {
    let q = (c_re - 0.25) * (c_re - 0.25) + c_im * c_im;
    let in_cardioid = q * (q + (c_re - 0.25)) < 0.25 * c_im * c_im;
    let in_bulb = (c_re + 1.0) * (c_re + 1.0) + c_im * c_im < 0.0625;
    in_cardioid || in_bulb
}

fn mandelbrot(c_re: f64, c_im: f64, max_iter: u32) -> f64 {
    let mut z_re: f64 = 0.0;
    let mut z_im: f64 = 0.0;
    let mut old_re: f64 = 0.0;
    let mut old_im: f64 = 0.0;
    let mut period = 0;
    let mut i = 0usize;
    let max = max_iter as usize;
    while i < max {
        if period == 0 {
            old_re = z_re;
            old_im = z_im;
        }
        period += 1;
        if period > 16 {
            period = 0;
            if z_re == old_re && z_im == old_im {
                return max_iter as f64;
            }
        }
        let z_re2 = z_re * z_re;
        let z_im2 = z_im * z_im;
        if z_re2 + z_im2 > BAILOUT {
            return smooth(i, z_re2, z_im2);
        }
        z_im = 2.0 * z_re * z_im + c_im;
        z_re = z_re2 - z_im2 + c_re;
        i += 1;
    }
    max_iter as f64
}

fn julia(x: f64, y: f64, c_re: f64, c_im: f64, max_iter: u32) -> f64 {
    let mut z_re = x;
    let mut z_im = y;
    let mut i = 0usize;
    let max = max_iter as usize;
    while i < max {
        let z_re2 = z_re * z_re;
        let z_im2 = z_im * z_im;
        if z_re2 + z_im2 > BAILOUT {
            return smooth(i, z_re2, z_im2);
        }
        z_im = 2.0 * z_re * z_im + c_im;
        z_re = z_re2 - z_im2 + c_re;
        i += 1;
    }
    max_iter as f64
}

fn burning_ship(c_re: f64, c_im: f64, max_iter: u32) -> f64 {
    let mut z_re: f64 = 0.0;
    let mut z_im: f64 = 0.0;
    let mut i = 0usize;
    let max = max_iter as usize;
    while i < max {
        let z_re2 = z_re * z_re;
        let z_im2 = z_im * z_im;
        if z_re2 + z_im2 > BAILOUT {
            return smooth(i, z_re2, z_im2);
        }
        let z_re_abs = z_re.abs();
        let z_im_abs = z_im.abs();
        z_im = 2.0 * z_re_abs * z_im_abs + c_im;
        z_re = z_re2 - z_im2 + c_re;
        i += 1;
    }
    max_iter as f64
}

fn outcome_of(v: f64, max_iter: u32) -> PixelOutcome {
    if v >= max_iter as f64 {
        PixelOutcome::Inside
    } else {
        PixelOutcome::Escaped((v * 20.0 + 200.0) as usize)
    }
}

fn mandelbrot_outcomes(
    r: &FractalRenderer,
    x_min: f64,
    x_max: f64,
    y_min: f64,
    y_max: f64,
    max_iter: u32,
) -> Vec<PixelOutcome> {
    let w = r.width as usize;
    let h = r.height as usize;
    let dx = (x_max - x_min) / r.width as f64;
    let dy = (y_max - y_min) / r.height as f64;
    let mut outcomes = Vec::with_capacity(w * h);
    for py in 0..h {
        let c_im = y_max - py as f64 * dy;
        for px in 0..w {
            let c_re = x_min + px as f64 * dx;
            let v = if in_cardioid_or_bulb(c_re, c_im) {
                max_iter as f64
            } else {
                mandelbrot(c_re, c_im, max_iter)
            };
            outcomes.push(outcome_of(v, max_iter));
        }
    }
    outcomes
}

fn pixel(r: &FractalRenderer, px: usize, py: usize) -> [u8; 4] {
    let base = (py * r.width as usize + px) * 4;
    let buf = r.buffer();
    [buf[base], buf[base + 1], buf[base + 2], buf[base + 3]]
}

#[test]
fn origin_is_in_main_cardioid_and_renders_black() {
    // c = 0 + 0i lies in the main cardioid; the fast path makes the pixel
    // opaque black for any positive iteration cap.
    assert!(in_cardioid_or_bulb(0.0, 0.0));
    for max_iter in [1u32, 2, 10, 100] {
        let mut r = FractalRenderer::new(1, 1);
        let v = if in_cardioid_or_bulb(0.0, 0.0) {
            max_iter as f64
        } else {
            mandelbrot(0.0, 0.0, max_iter)
        };
        r.render_outcomes(&vec![outcome_of(v, max_iter)]);
        assert_eq!(pixel(&r, 0, 0), [0, 0, 0, 0xFF]);
    }
}

#[test]
fn minus_one_is_in_period_two_bulb_and_renders_black() {
    // c = -1 + 0i lies in the period-2 bulb.
    assert!(in_cardioid_or_bulb(-1.0, 0.0));
    let mut r = FractalRenderer::new(1, 1);
    let v = if in_cardioid_or_bulb(-1.0, 0.0) {
        100.0
    } else {
        mandelbrot(-1.0, 0.0, 100)
    };
    r.render_outcomes(&vec![outcome_of(v, 100)]);
    assert_eq!(pixel(&r, 0, 0), [0, 0, 0, 0xFF]);
}

#[test]
fn julia_far_point_escapes_quickly() {
    // The default Julia constant, starting at (2.0, 2.0): |z|^2 exceeds the
    // bailout within the first few iterations, so the count is finite and
    // strictly below the cap.
    for max_iter in [10u32, 100, 1000] {
        let v = julia(2.0, 2.0, -0.7, 0.27015, max_iter);
        assert!(v.is_finite());
        assert!(v < max_iter as f64);
        assert!(v < 4.0);
    }
}

#[test]
fn color_mapper_boundary() {
    let r = FractalRenderer::new(1, 1);
    let max_iter = 100u32;
    // A count exactly at the cap is in-set: opaque black.
    let at_cap = outcome_of(max_iter as f64, max_iter);
    assert_eq!(at_cap, PixelOutcome::Inside);
    assert_eq!(r.color_of(at_cap), BLACK);
    // A count just below the cap maps to a palette entry, never black.
    let below = outcome_of(max_iter as f64 - 0.001, max_iter);
    assert!(matches!(below, PixelOutcome::Escaped(_)));
    assert_ne!(r.color_of(below), BLACK);
}

#[test]
fn burning_ship_differs_from_mandelbrot_below_the_axis() {
    // The absolute-value fold acts on points with negative imaginary part.
    let mut differs = false;
    for max_iter in [10u32, 50, 100, 500] {
        if mandelbrot(-1.5, -0.1, max_iter) != burning_ship(-1.5, -0.1, max_iter) {
            differs = true;
        }
    }
    assert!(differs);
}

#[test]
fn hundred_by_hundred_mandelbrot_scene() {
    let mut r = FractalRenderer::new(100, 100);
    let outcomes = mandelbrot_outcomes(&r, -2.0, 1.0, -1.5, 1.5, 100);
    r.render_outcomes(&outcomes);
    // Row 50, column 33 maps near the real axis inside the set: opaque black.
    assert_eq!(pixel(&r, 33, 50), [0, 0, 0, 0xFF]);
    // Row 0, column 0 maps to c = (-2.0, 1.5), which escapes at once: not
    // black, and opaque.
    let corner = pixel(&r, 0, 0);
    assert_ne!(&corner[0..3], &[0, 0, 0]);
    assert_eq!(corner[3], 0xFF);
}

#[test]
fn zero_iteration_cap_renders_all_black() {
    // With a cap of zero the iteration runs zero times and returns the cap,
    // which the color mapper treats as in-set: every pixel is opaque black.
    let mut r = FractalRenderer::new(8, 8);
    let outcomes = mandelbrot_outcomes(&r, -2.0, 1.0, -1.5, 1.5, 0);
    assert!(outcomes.iter().all(|&o| o == PixelOutcome::Inside));
    r.render_outcomes(&outcomes);
    for py in 0..8 {
        for px in 0..8 {
            assert_eq!(pixel(&r, px, py), [0, 0, 0, 0xFF]);
        }
    }
}

#[test]
fn full_render_is_deterministic() {
    let mut a = FractalRenderer::new(64, 48);
    let mut b = FractalRenderer::new(64, 48);
    let oa = mandelbrot_outcomes(&a, -2.0, 1.0, -1.5, 1.5, 60);
    let ob = mandelbrot_outcomes(&b, -2.0, 1.0, -1.5, 1.5, 60);
    assert_eq!(oa, ob);
    a.render_outcomes(&oa);
    b.render_outcomes(&ob);
    assert_eq!(a.buffer(), b.buffer());
}

#[test]
fn julia_render_uses_stored_constant() {
    let mut r = FractalRenderer::new(3, 3);
    r.set_fractal_type(FractalType::Julia);
    let re = f64::from_bits(r.julia_re_bits);
    let im = f64::from_bits(r.julia_im_bits);
    assert_eq!(re, -0.7);
    assert_eq!(im, 0.27015);
    let w = r.width as usize;
    let h = r.height as usize;
    let (x_min, x_max, y_min, y_max) = (-2.0, 2.0, -2.0, 2.0);
    let dx = (x_max - x_min) / w as f64;
    let dy = (y_max - y_min) / h as f64;
    let mut outcomes = Vec::new();
    for py in 0..h {
        let y = y_max - py as f64 * dy;
        for px in 0..w {
            let x = x_min + px as f64 * dx;
            outcomes.push(outcome_of(julia(x, y, re, im, 50), 50));
        }
    }
    r.render_outcomes(&outcomes);
    assert_eq!(r.get_buffer_len(), w * h * 4);
    // The corner starts far out and escapes: not black.
    let corner = pixel(&r, 0, 0);
    assert_ne!(&corner[0..3], &[0, 0, 0]);
}
