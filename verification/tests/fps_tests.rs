use render_core::fps::{FPSLimiter, DEFAULT_FRAME_TIME_MICROS};

#[test]
fn new_counter_defaults() {
    let counter = FPSLimiter::new();
    assert_eq!(counter.delta_micros(), 0);
    assert_eq!(counter.sample_sum_micros(), 0);
    assert_eq!(counter.keep_fps_delay_micros(), DEFAULT_FRAME_TIME_MICROS);
}

#[test]
fn tick_records_samples_in_a_ring() {
    let mut counter = FPSLimiter::new();
    counter.tick_frame(100);
    counter.tick_frame(200);
    counter.tick_frame(300);
    assert_eq!(counter.delta_micros(), 300);
    assert_eq!(counter.sample_sum_micros(), 600);
    counter.tick_frame(400);
    counter.tick_frame(500);
    // The ring is full; the sixth sample overwrites the first.
    counter.tick_frame(1000);
    assert_eq!(counter.sample_sum_micros(), 200 + 300 + 400 + 500 + 1000);
}

#[test]
fn delay_fills_the_frame_budget() {
    let mut counter = FPSLimiter::new();
    counter.tick_frame(10000);
    assert_eq!(counter.keep_fps_delay_micros(), DEFAULT_FRAME_TIME_MICROS - 10000);
    counter.tick_frame(20000);
    // The frame already overran the budget: no delay.
    assert_eq!(counter.keep_fps_delay_micros(), 0);
}

#[test]
fn prefer_fps_sets_the_budget() {
    let mut counter = FPSLimiter::new();
    counter.set_prefer_fps(30);
    counter.tick_frame(30000);
    assert_eq!(counter.keep_fps_delay_micros(), 1_000_000 / 30 - 30000);
}
