use pixel_loop::{
    clamp_frame_nanos, updates_in_tick, Application, BufferSurface, DrawingSurface, PixelLoop,
    TickCounter,
};

/// An application whose render always fails, to observe error propagation.
struct FailingRender;

impl<S: DrawingSurface> Application<S> for FailingRender {
    type Error = &'static str;

    fn update(&mut self, _surface: &mut S) -> Result<(), &'static str> {
        Ok(())
    }

    fn render(&mut self, _surface: &mut S, _dt_nanos: u64) -> Result<(), &'static str> {
        Err("render failed")
    }
}

#[test]
fn timestep_for_120_fps_is_8_333_333_nanos() {
    let pixel_loop = PixelLoop::new(120, TickCounter::new(), BufferSurface::new(4, 4));
    assert_eq!(pixel_loop.update_timestep_nanos(), 8_333_333);
}

#[test]
fn timestep_rounds_to_the_nearest_nanosecond() {
    let surface = BufferSurface::new(1, 1);
    assert_eq!(PixelLoop::new(1, TickCounter::new(), surface).update_timestep_nanos(), 1_000_000_000);
    let surface = BufferSurface::new(1, 1);
    assert_eq!(PixelLoop::new(3, TickCounter::new(), surface).update_timestep_nanos(), 333_333_333);
    let surface = BufferSurface::new(1, 1);
    assert_eq!(PixelLoop::new(60, TickCounter::new(), surface).update_timestep_nanos(), 16_666_667);
    let surface = BufferSurface::new(1, 1);
    assert_eq!(PixelLoop::new(1000, TickCounter::new(), surface).update_timestep_nanos(), 1_000_000);
}

#[test]
fn elapsed_250_ms_is_clamped_to_100_ms() {
    assert_eq!(clamp_frame_nanos(250_000_000), 100_000_000);
}

#[test]
fn clamp_keeps_small_deltas_and_caps_large_ones() {
    assert_eq!(clamp_frame_nanos(0), 0);
    assert_eq!(clamp_frame_nanos(5), 5);
    assert_eq!(clamp_frame_nanos(100_000_000), 100_000_000);
    assert_eq!(clamp_frame_nanos(100_000_001), 100_000_000);
    assert_eq!(clamp_frame_nanos(u128::MAX), 100_000_000);
}

#[test]
fn accumulator_equal_to_step_drains_zero_updates() {
    let step = 8_333_333;
    assert_eq!(updates_in_tick(step, step), 0);
}

#[test]
fn accumulator_drains_while_strictly_above_the_step() {
    let step = 8_333_333;
    assert_eq!(updates_in_tick(0, step), 0);
    assert_eq!(updates_in_tick(step - 1, step), 0);
    assert_eq!(updates_in_tick(step + 1, step), 1);
    assert_eq!(updates_in_tick(2 * step, step), 1);
    assert_eq!(updates_in_tick(3 * step, step), 2);
    assert_eq!(updates_in_tick(100_000_000, step), 12);
}

#[test]
fn first_tick_renders_once_and_updates_zero_times() {
    let mut pixel_loop = PixelLoop::new(120, TickCounter::new(), BufferSurface::new(4, 4));
    assert_eq!(pixel_loop.next_loop(), Ok(()));
    let counter = pixel_loop.state_ref();
    assert_eq!(counter.renders, 1, "exactly one render per tick");
    assert_eq!(counter.updates, 0, "an empty accumulator drains no updates");
    assert!(counter.last_dt_nanos <= 100_000_000);
    assert!(pixel_loop.accumulator_nanos() <= 100_000_000);
}

#[test]
fn every_tick_renders_exactly_once() {
    let mut pixel_loop = PixelLoop::new(120, TickCounter::new(), BufferSurface::new(4, 4));
    for ticks in 1..=5u64 {
        assert_eq!(pixel_loop.next_loop(), Ok(()));
        assert_eq!(pixel_loop.state_ref().renders, ticks);
    }
}

#[test]
fn a_failing_render_aborts_the_tick_and_propagates_the_error() {
    let mut pixel_loop = PixelLoop::new(120, FailingRender, BufferSurface::new(4, 4));
    assert_eq!(pixel_loop.next_loop(), Err("render failed"));
    assert_eq!(
        pixel_loop.accumulator_nanos(),
        0,
        "an abandoned tick consumes no frame delta"
    );
}

/// An application whose update always fails, to observe that a failing
/// update aborts the tick before its render.
struct FailingUpdate {
    renders: u64,
}

impl<S: DrawingSurface> Application<S> for FailingUpdate {
    type Error = &'static str;

    fn update(&mut self, _surface: &mut S) -> Result<(), &'static str> {
        Err("update failed")
    }

    fn render(&mut self, _surface: &mut S, _dt_nanos: u64) -> Result<(), &'static str> {
        self.renders += 1;
        Ok(())
    }
}

#[test]
fn updates_fire_once_the_accumulator_exceeds_the_step() {
    // A two-billion-fps loop has a one-nanosecond step, so any measurable
    // elapsed time drains updates.
    let mut pixel_loop = PixelLoop::new(2_000_000_000, TickCounter::new(), BufferSurface::new(2, 2));
    assert_eq!(pixel_loop.update_timestep_nanos(), 1);
    for _ in 0..1000 {
        assert_eq!(pixel_loop.next_loop(), Ok(()));
        if pixel_loop.state_ref().updates > 0 {
            break;
        }
    }
    assert!(pixel_loop.state_ref().updates > 0);
}

#[test]
fn a_failing_update_aborts_the_tick_before_its_render() {
    let mut pixel_loop = PixelLoop::new(
        2_000_000_000,
        FailingUpdate { renders: 0 },
        BufferSurface::new(2, 2),
    );
    let mut ok_ticks = 0u64;
    let mut saw_error = false;
    for _ in 0..1000 {
        match pixel_loop.next_loop() {
            Ok(()) => ok_ticks += 1,
            Err(err) => {
                assert_eq!(err, "update failed");
                saw_error = true;
                break;
            }
        }
    }
    assert!(saw_error, "some tick must eventually drain an update");
    assert_eq!(
        pixel_loop.state_ref().renders,
        ok_ticks,
        "the failing tick must not render"
    );
}

#[test]
fn loop_accessors_expose_state_and_surface() {
    let mut pixel_loop = PixelLoop::new(120, TickCounter::new(), BufferSurface::new(4, 4));
    pixel_loop.state_mut().last_dt_nanos = 7;
    assert_eq!(pixel_loop.state_ref().last_dt_nanos, 7);
    let c = pixel_loop::Color::from_rgb(1, 2, 3);
    pixel_loop.surface_mut().set(0, 0, &c);
    assert_eq!(pixel_loop.surface_mut().get(0, 0), c);
}
