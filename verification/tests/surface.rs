use sursface::display::{preferred_format, CursorSample, Ratio, Viewport};
use sursface::time::{Clock, FrameTimer, MICROS_PER_SECOND};
use sursface::uniforms::{UniformWords, UNIFORM_BLOCK_SIZE};

#[test]
fn a_viewport_has_no_empty_side() {
    assert_eq!(Viewport::new(0, 0), None);
    assert_eq!(Viewport::new(0, 5), None);
    assert_eq!(Viewport::new(5, 0), None);
    let viewport = Viewport::new(1, u32::MAX).unwrap();
    assert_eq!(viewport.width(), 1);
    assert_eq!(viewport.height(), u32::MAX);
}

#[test]
fn resize_ignores_an_empty_size() {
    let mut viewport = Viewport::new(720, 480).unwrap();
    assert!(!viewport.resize(0, 100));
    assert!(!viewport.resize(100, 0));
    assert!(!viewport.resize(0, 0));
    assert_eq!((viewport.width(), viewport.height()), (720, 480));
    assert!(viewport.resize(1280, 720));
    assert_eq!((viewport.width(), viewport.height()), (1280, 720));
    assert!(viewport.resize(1280, 720));
    assert_eq!(viewport, Viewport::new(1280, 720).unwrap());
}

#[test]
fn the_first_srgb_format_is_preferred() {
    assert_eq!(preferred_format(&vec![]), None);
    assert_eq!(preferred_format(&vec![false]), Some(0));
    assert_eq!(preferred_format(&vec![true]), Some(0));
    assert_eq!(preferred_format(&vec![false, false, false]), Some(0));
    assert_eq!(preferred_format(&vec![false, true, false, true]), Some(1));
    assert_eq!(preferred_format(&vec![false, false, false, true]), Some(3));
    assert_eq!(preferred_format(&vec![true, true]), Some(0));
}

#[test]
fn aspect_ratio_is_width_over_height() {
    let viewport = Viewport::new(1280, 720).unwrap();
    assert_eq!(viewport.aspect_ratio(), Ratio { numer: 1280, denom: 720 });
    let viewport = Viewport::new(u32::MAX, 1).unwrap();
    assert_eq!(viewport.aspect_ratio(), Ratio { numer: 4_294_967_295, denom: 1 });
}

#[test]
fn normalized_position_is_a_fraction_of_the_viewport() {
    let viewport = Viewport::new(800, 600).unwrap();
    let (x, y) = CursorSample { x: 400, y: 150 }.normalized(viewport);
    assert_eq!(x, Ratio { numer: 400, denom: 800 });
    assert_eq!(y, Ratio { numer: 150, denom: 600 });
    assert_eq!(x.numer as f64 / x.denom as f64, 0.5);
    assert_eq!(y.numer as f64 / y.denom as f64, 0.25);
    let (x, y) = CursorSample { x: i32::MIN, y: i32::MAX }.normalized(viewport);
    assert_eq!((x.numer, y.numer), (-2_147_483_648, 2_147_483_647));
}

#[test]
fn samples_compare_by_both_coordinates() {
    let sample = CursorSample { x: 3, y: 4 };
    assert!(sample.same_as(CursorSample { x: 3, y: 4 }));
    assert!(!sample.same_as(CursorSample { x: 4, y: 3 }));
    assert!(!sample.same_as(CursorSample { x: 3, y: 5 }));
    assert!(!sample.same_as(CursorSample { x: 2, y: 4 }));
}

#[test]
fn frame_timer_measures_from_frame_to_frame() {
    assert_eq!(MICROS_PER_SECOND, 1_000_000);
    let mut timer = FrameTimer::new(1_000);
    assert_eq!(timer.last_timestep, 1_000);
    assert_eq!(timer.lap(17_667), 16_667);
    assert_eq!(timer.last_timestep, 17_667);
    assert_eq!(timer.lap(17_667), 0);
    assert_eq!(timer.lap(u64::MAX), u64::MAX - 17_667);
}

#[test]
fn frame_timer_reads_zero_when_the_clock_ran_backward() {
    let mut timer = FrameTimer::new(5_000);
    assert_eq!(timer.lap(4_000), 0);
    assert_eq!(timer.last_timestep, 4_000);
    assert_eq!(timer.lap(4_500), 500);
}

#[test]
fn clock_keeps_to_the_highest_report() {
    let mut clock = Clock::start();
    assert_eq!(clock.observe(0), 0);
    assert_eq!(clock.observe(1_500), 1_500);
    assert_eq!(clock.observe(1_499), 1_500);
    assert_eq!(clock.observe(0), 1_500);
    assert_eq!(clock.observe(1_501), 1_501);
    assert_eq!(clock.observe(u64::MAX as u128 - 1), u64::MAX - 1);
    assert_eq!(clock.observe(u64::MAX as u128 + 1), u64::MAX);
    assert_eq!(clock.observe(u128::MAX), u64::MAX);
    assert_eq!(clock.observe(7), u64::MAX);
}

#[test]
fn clock_readings_never_decrease() {
    let mut clock = Clock::start();
    let mut last = clock.now_micros();
    for _ in 0..10_000 {
        let now = clock.now_micros();
        assert!(now >= last);
        last = now;
    }
}

#[test]
fn clock_counts_from_its_start_and_advances() {
    let mut clock = Clock::start();
    let first = clock.now_micros();
    // A clock that was just started has not run for a minute.
    assert!(first < 60 * MICROS_PER_SECOND);
    let mut spins: u64 = 0;
    let mut now = first;
    while now == first && spins < 1_000_000_000 {
        now = clock.now_micros();
        spins += 1;
    }
    assert!(now > first);
    assert!(now < 60 * MICROS_PER_SECOND);
}

#[test]
fn uniform_block_is_six_words_and_padding() {
    assert_eq!(UNIFORM_BLOCK_SIZE, 32);
    let words = UniformWords {
        pan: [0x0403_0201, 0x0807_0605],
        cursor_normalized: [0x0c0b_0a09, 0x100f_0e0d],
        scale: 0x1413_1211,
        aspect_ratio: 0x1817_1615,
    };
    let block = words.encode();
    let mut expected: Vec<u8> = (1u8..=24).collect();
    expected.extend([0u8; 8]);
    assert_eq!(block, expected);
    assert_eq!(block.len(), UNIFORM_BLOCK_SIZE);
}

#[test]
fn uniform_block_holds_the_numbers_as_a_shader_reads_them() {
    let values = [0.25f32, -1.5, 0.5, 0.75, 4.0, 16.0 / 9.0];
    let words = UniformWords {
        pan: [values[0].to_bits(), values[1].to_bits()],
        cursor_normalized: [values[2].to_bits(), values[3].to_bits()],
        scale: values[4].to_bits(),
        aspect_ratio: values[5].to_bits(),
    };
    let block = words.encode();
    assert_eq!(block.len(), 32);
    for (index, value) in values.iter().enumerate() {
        assert_eq!(&block[4 * index..4 * index + 4], &value.to_le_bytes());
    }
    assert_eq!(&block[24..], &[0u8; 8]);
    assert_eq!(&block[16..20], &[0x00, 0x00, 0x80, 0x40]);
}
