use interrupts::protocol::{
    bring_up, dispatch_ready, handle_firing, irq_acknowledge, irq_advance, irq_entry, irq_rearm,
    irq_render, irq_repaint, run_firings, timer_tick, BringUpConfig, ClockConfig, ConfigError,
    IrqConfig, Phase, System, TEXT_ANCHOR_X, TEXT_ANCHOR_Y,
};
use interrupts::screen::{Color, DrawError, Frame, Screen, TextStyle};

fn standard_config() -> BringUpConfig {
    BringUpConfig {
        clock: ClockConfig { ext_hz: 8_000_000, sys_hz: 108_000_000 },
        rate_hz: 1,
        irq: IrqConfig { priority_bits: 2, threshold_level: 0, level: 2, priority: 2 },
        width: 160,
        height: 80,
    }
}

fn started() -> System {
    bring_up(standard_config()).unwrap()
}

fn painted_text(s: &System) -> &str {
    match &s.screen.frame {
        Frame::Painted { text, .. } => text.as_str(),
        _ => panic!("expected a painted frame"),
    }
}

fn fire_once(s: &mut System) {
    timer_tick(s);
    assert!(dispatch_ready(s));
    handle_firing(s);
}

#[test]
fn bring_up_leaves_the_documented_state() {
    let s = started();
    assert_eq!(s.counter, 0);
    assert!(s.listening);
    assert!(!s.masked);
    assert!(s.global_enabled);
    assert!(!s.pending);
    assert!(!s.halted);
    assert_eq!(s.phase, Phase::Idle);
    assert_eq!(s.label.as_str(), "Counter value: ");
    assert!(s.staged.is_none());
    assert_eq!(s.screen.width, 160);
    assert_eq!(s.screen.height, 80);
    match s.screen.frame {
        Frame::Cleared { background } => assert_eq!(background, Color::Black),
        _ => panic!("bring-up must leave the display cleared"),
    }
}

#[test]
fn bring_up_is_deterministic() {
    let a = started();
    let b = started();
    assert_eq!(a.counter, b.counter);
    assert_eq!(a.masked, b.masked);
    assert_eq!(a.global_enabled, b.global_enabled);
    assert_eq!(a.pending, b.pending);
    assert_eq!(a.phase, b.phase);
    assert_eq!(a.label, b.label);
    assert_eq!(a.clock, b.clock);
    assert_eq!(a.rate_hz, b.rate_hz);
    assert_eq!(a.irq, b.irq);
    match (&a.screen.frame, &b.screen.frame) {
        (Frame::Cleared { background: x }, Frame::Cleared { background: y }) => assert_eq!(x, y),
        _ => panic!("both bring-ups must clear the display"),
    }
}

#[test]
fn bring_up_rejects_zero_clock() {
    let mut cfg = standard_config();
    cfg.clock.ext_hz = 0;
    assert_eq!(bring_up(cfg).err(), Some(ConfigError::ClockInvalid));
    let mut cfg = standard_config();
    cfg.clock.sys_hz = 0;
    assert_eq!(bring_up(cfg).err(), Some(ConfigError::ClockInvalid));
}

#[test]
fn bring_up_rejects_bad_rate() {
    let mut cfg = standard_config();
    cfg.rate_hz = 0;
    assert_eq!(bring_up(cfg).err(), Some(ConfigError::RateInvalid));
    let mut cfg = standard_config();
    cfg.rate_hz = cfg.clock.sys_hz + 1;
    assert_eq!(bring_up(cfg).err(), Some(ConfigError::RateInvalid));
}

#[test]
fn bring_up_rejects_blocking_threshold() {
    let mut cfg = standard_config();
    cfg.irq.threshold_level = cfg.irq.level;
    assert_eq!(bring_up(cfg).err(), Some(ConfigError::ThresholdBlocksTimer));
}

#[test]
fn five_firings_count_to_five() {
    let mut s = started();
    for _ in 0..5 {
        fire_once(&mut s);
    }
    assert_eq!(s.counter, 5);
    // Each firing paints the value it began with, so the fifth shows 4;
    // the sixth then shows 5.
    assert_eq!(painted_text(&s), "Counter value: 4");
    fire_once(&mut s);
    assert_eq!(painted_text(&s), "Counter value: 5");
}

#[test]
fn displayed_value_advances_by_one_each_firing() {
    let mut s = started();
    for i in 0..10u32 {
        fire_once(&mut s);
        assert_eq!(painted_text(&s), format!("Counter value: {}", i));
        assert_eq!(s.counter, i + 1);
    }
}

#[test]
fn run_firings_matches_single_steps() {
    let mut s = started();
    run_firings(&mut s, 3);
    assert_eq!(s.counter, 3);
    assert_eq!(painted_text(&s), "Counter value: 2");
    assert_eq!(s.phase, Phase::Idle);
    assert!(!s.pending && !s.masked && s.global_enabled && !s.halted);
}

#[test]
fn counter_wraps_without_a_formatting_failure() {
    let mut s = started();
    s.counter = u32::MAX;
    fire_once(&mut s);
    assert_eq!(s.counter, 0);
    assert!(!s.halted);
    assert_eq!(painted_text(&s), "Counter value: 4294967295");
    fire_once(&mut s);
    assert_eq!(painted_text(&s), "Counter value: 0");
    assert_eq!(s.counter, 1);
}

#[test]
fn source_is_masked_for_the_handler_and_only_then() {
    let mut s = started();
    assert!(!s.masked && s.global_enabled);
    timer_tick(&mut s);
    assert!(!s.masked && s.global_enabled);
    irq_entry(&mut s);
    assert!(s.masked && !s.global_enabled);
    irq_acknowledge(&mut s);
    assert!(s.masked && !s.global_enabled);
    irq_render(&mut s);
    assert!(s.masked && !s.global_enabled);
    irq_repaint(&mut s);
    assert!(s.masked && !s.global_enabled);
    irq_advance(&mut s);
    assert!(s.masked && !s.global_enabled);
    irq_rearm(&mut s);
    assert!(!s.masked && s.global_enabled);
    assert_eq!(s.phase, Phase::Idle);
}

#[test]
fn pending_is_clear_before_the_source_is_unmasked() {
    let mut s = started();
    timer_tick(&mut s);
    assert!(s.pending);
    irq_entry(&mut s);
    irq_acknowledge(&mut s);
    // Acknowledged before anything else touches the display or counter:
    // were the flag still set at re-arm time, unmasking would re-trigger
    // the very firing being handled.
    assert!(!s.pending);
    irq_render(&mut s);
    irq_repaint(&mut s);
    irq_advance(&mut s);
    assert!(!s.pending);
    irq_rearm(&mut s);
    assert!(!s.pending);
    assert!(!dispatch_ready(&s));
}

#[test]
fn firing_held_during_handler_is_dispatched_exactly_once() {
    let mut s = started();
    timer_tick(&mut s);
    irq_entry(&mut s);
    irq_acknowledge(&mut s);
    irq_render(&mut s);
    // A second firing arrives while the handler is mid-execution: it is
    // held pending, not dispatched, because the source is masked.
    timer_tick(&mut s);
    assert!(s.pending);
    assert!(!dispatch_ready(&s));
    irq_repaint(&mut s);
    irq_advance(&mut s);
    irq_rearm(&mut s);
    // After re-arm the held firing is dispatchable, exactly once.
    assert!(dispatch_ready(&s));
    handle_firing(&mut s);
    assert_eq!(s.counter, 2);
    assert!(!dispatch_ready(&s));
}

#[test]
fn ticks_held_together_coalesce_into_one_firing() {
    let mut s = started();
    timer_tick(&mut s);
    timer_tick(&mut s);
    timer_tick(&mut s);
    assert!(dispatch_ready(&s));
    handle_firing(&mut s);
    // The pending flag is a single bit: three held ticks became one firing.
    assert_eq!(s.counter, 1);
    assert!(!dispatch_ready(&s));
}

#[test]
fn formatting_overflow_halts_instead_of_painting() {
    let mut s = started();
    // A label long enough that label plus digits cannot fit the buffer.
    s.label = "a".repeat(32);
    timer_tick(&mut s);
    handle_firing(&mut s);
    assert!(s.halted);
    assert!(s.masked && !s.global_enabled);
    assert_eq!(s.counter, 0);
    // The frame still shows what bring-up left: nothing truncated was drawn.
    match s.screen.frame {
        Frame::Cleared { background } => assert_eq!(background, Color::Black),
        _ => panic!("a halted render must not touch the frame"),
    }
    assert!(!dispatch_ready(&s));
}

#[test]
fn drawing_fault_halts_the_device() {
    let mut s = started();
    s.screen.fault = true;
    timer_tick(&mut s);
    handle_firing(&mut s);
    assert!(s.halted);
    assert!(s.masked && !s.global_enabled);
    assert_eq!(s.counter, 0);
    assert!(matches!(s.screen.frame, Frame::Indeterminate));
    assert!(!dispatch_ready(&s));
}

#[test]
fn painted_frame_carries_anchor_and_style() {
    let mut s = started();
    fire_once(&mut s);
    match &s.screen.frame {
        Frame::Painted { background, anchor_x, anchor_y, style, .. } => {
            assert_eq!(*background, Color::Black);
            assert_eq!(*anchor_x, TEXT_ANCHOR_X);
            assert_eq!(*anchor_y, TEXT_ANCHOR_Y);
            assert_eq!(*style, TextStyle { foreground: Color::Black, background: Color::Green });
            assert_eq!((TEXT_ANCHOR_X, TEXT_ANCHOR_Y), (40, 35));
        }
        _ => panic!("expected a painted frame"),
    }
}

#[test]
fn tick_without_event_generation_stays_quiet() {
    let mut s = started();
    s.listening = false;
    timer_tick(&mut s);
    assert!(!s.pending);
    assert!(!dispatch_ready(&s));
}

#[test]
fn screen_fill_and_fault_behaviour() {
    let mut sc = Screen::new(160, 80);
    assert!(sc.fill(Color::Green).is_ok());
    match sc.frame {
        Frame::Cleared { background } => assert_eq!(background, Color::Green),
        _ => panic!("fill must clear the frame"),
    }
    sc.fault = true;
    assert_eq!(sc.fill(Color::Black), Err(DrawError::Transport));
    assert!(matches!(sc.frame, Frame::Indeterminate));
}
