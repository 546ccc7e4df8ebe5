//! The interrupt coordination protocol: one shared state cell (timer state,
//! display, counter) touched by exactly two execution contexts, an idle main
//! loop and the timer's interrupt handler. Exclusivity is enforced without a
//! lock: the handler masks its own interrupt source and disables interrupts
//! globally for its whole duration, acknowledges the pending hardware event
//! before doing any work, and re-arms only as its very last step.
//!
//! Hardware is modeled explicitly: the source mask, the global enable flag
//! and the peripheral's pending-update flag are plain booleans, and a timer
//! firing is a transition that raises the pending flag (coalescing: however
//! many ticks elapse while the source is masked, at most one event is held).

use vstd::prelude::*;
use vstd::utf8::is_ascii_chars;
use crate::render::{render_line, decimal_chars, status_line, Line, RenderError};
use crate::screen::{Color, Frame, Screen, TextStyle};

verus! {

/// Where the status line is anchored on the display.
pub const TEXT_ANCHOR_X: i32 = 40;

/// Where the status line is anchored on the display.
pub const TEXT_ANCHOR_Y: i32 = 35;

/// The label painted in front of the counter's digits.
pub open spec fn counter_label() -> Seq<char> {
    "Counter value: "@
}

/// The style the status line is painted with.
pub open spec fn line_style() -> TextStyle {
    TextStyle { foreground: Color::Black, background: Color::Green }
}

/// Clock bring-up parameters: external crystal and target system frequency.
#[derive(Clone, Copy, Debug, PartialEq, Eq, Structural)]
pub struct ClockConfig {
    pub ext_hz: u32,
    pub sys_hz: u32,
}

/// Interrupt-controller parameters for the timer's source: the
/// priority-grouping scheme, the global threshold, and the source's
/// level/priority pair.
#[derive(Clone, Copy, Debug, PartialEq, Eq, Structural)]
pub struct IrqConfig {
    pub priority_bits: u8,
    pub threshold_level: u8,
    pub level: u8,
    pub priority: u8,
}

/// Everything bring-up needs: clocks, firing rate, interrupt registration,
/// and the display dimensions.
#[derive(Clone, Copy, Debug, PartialEq, Eq, Structural)]
pub struct BringUpConfig {
    pub clock: ClockConfig,
    pub rate_hz: u32,
    pub irq: IrqConfig,
    pub width: u32,
    pub height: u32,
}

/// Why bring-up refused a configuration.
#[derive(Clone, Copy, Debug, PartialEq, Eq, Structural)]
pub enum ConfigError {
    /// A clock frequency of zero.
    ClockInvalid,
    /// A firing rate of zero, or one above the system clock.
    RateInvalid,
    /// The global threshold would keep the timer's level from ever being
    /// dispatched.
    ThresholdBlocksTimer,
}

/// Where the handler stands within one firing. `Idle` is everything outside
/// the handler; the other phases run in order, bracketed by masking on entry
/// and re-arming at the end.
#[derive(Clone, Copy, Debug, PartialEq, Eq, Structural)]
pub enum Phase {
    Idle,
    Entered,
    Acknowledged,
    Rendered,
    Repainted,
    Advanced,
}

/// The whole device: the hardware-resident interrupt state (mask, global
/// enable, pending flag), the shared state cell (counter, display, the label
/// text), and the handler's position within a firing.
pub struct System {
    pub clock: ClockConfig,
    pub rate_hz: u32,
    pub irq: IrqConfig,
    /// Update-event generation at the timer peripheral.
    pub listening: bool,
    /// The timer's source is masked at the interrupt controller.
    pub masked: bool,
    /// Interrupts are enabled globally at the processor.
    pub global_enabled: bool,
    /// The peripheral's pending-update flag; held ticks coalesce into it.
    pub pending: bool,
    pub counter: u32,
    pub screen: Screen,
    pub label: String,
    /// The line rendered by the current firing, between render and repaint.
    pub staged: Option<Line>,
    pub phase: Phase,
    /// A fatal condition was hit; the device stays halted forever.
    pub halted: bool,
}

/// A pending firing may be dispatched: the handler is not already running,
/// nothing is masked, and the source's level clears the global threshold.
pub open spec fn dispatchable(s: System) -> bool {
    &&& !s.halted
    &&& s.phase is Idle
    &&& s.pending
    &&& !s.masked
    &&& s.global_enabled
    &&& s.irq.level > s.irq.threshold_level
}

/// The handler is somewhere between entry and re-arm.
pub open spec fn in_handler(p: Phase) -> bool {
    !(p is Idle)
}

/// The mask discipline: inside the handler the source is masked and global
/// interrupts are disabled; outside it (on a live device) neither holds.
pub open spec fn protocol_inv(s: System) -> bool {
    &&& in_handler(s.phase) ==> s.masked && !s.global_enabled
    &&& s.phase is Idle && !s.halted ==> !s.masked && s.global_enabled
}

/// The status line for this state's counter fits the text buffer.
pub open spec fn render_fits(s: System) -> bool {
    s.label@.len() + decimal_chars(s.counter as int).len() <= 32
}

/// The fields no firing ever changes: configuration, the label, the display
/// dimensions, and whether the surface is faulty.
pub open spec fn same_device_config(a: System, b: System) -> bool {
    &&& a.clock == b.clock
    &&& a.rate_hz == b.rate_hz
    &&& a.irq == b.irq
    &&& a.listening == b.listening
    &&& a.label@ == b.label@
    &&& a.screen.width == b.screen.width
    &&& a.screen.height == b.screen.height
    &&& a.screen.fault == b.screen.fault
}

/// One complete, successful firing: the counter advances by one (wrapping),
/// the frame shows the label and the counter value the firing began with,
/// the event is acknowledged, and the source is re-armed.
pub open spec fn firing_relation(pre: System, post: System) -> bool {
    &&& dispatchable(pre)
    &&& !pre.screen.fault
    &&& render_fits(pre)
    &&& same_device_config(pre, post)
    &&& post.counter as int == (pre.counter as int + 1) % crate::counter_modulus()
    &&& post.screen.frame matches Frame::Painted { background, text, anchor_x, anchor_y, style }
        && background == Color::Black && text@ == status_line(pre.label@, pre.counter) && anchor_x
        == TEXT_ANCHOR_X && anchor_y == TEXT_ANCHOR_Y && style == line_style()
    &&& !post.pending
    &&& !post.masked
    &&& post.global_enabled
    &&& post.staged is None
    &&& post.phase is Idle
    &&& !post.halted
}

/// A state bring-up is obliged to produce for a given configuration: counter
/// at zero, display cleared to the background, event generation on, source
/// unmasked, interrupts enabled, nothing pending, not halted.
pub open spec fn ready(s: System, cfg: BringUpConfig) -> bool {
    &&& s.clock == cfg.clock
    &&& s.rate_hz == cfg.rate_hz
    &&& s.irq == cfg.irq
    &&& s.listening
    &&& !s.masked
    &&& s.global_enabled
    &&& !s.pending
    &&& s.counter == 0
    &&& s.label@ == counter_label()
    &&& s.staged is None
    &&& s.phase is Idle
    &&& !s.halted
    &&& s.screen.width == cfg.width
    &&& s.screen.height == cfg.height
    &&& !s.screen.fault
    &&& s.screen.frame == (Frame::Cleared { background: Color::Black })
}

/// A configuration bring-up accepts.
pub open spec fn config_ok(cfg: BringUpConfig) -> bool {
    &&& cfg.clock.ext_hz > 0
    &&& cfg.clock.sys_hz > 0
    &&& cfg.rate_hz > 0
    &&& cfg.rate_hz <= cfg.clock.sys_hz
    &&& cfg.irq.level > cfg.irq.threshold_level
}

/// The error a refused configuration is reported with.
pub open spec fn config_error(cfg: BringUpConfig) -> ConfigError {
    if cfg.clock.ext_hz == 0 || cfg.clock.sys_hz == 0 {
        ConfigError::ClockInvalid
    } else if cfg.rate_hz == 0 || cfg.rate_hz > cfg.clock.sys_hz {
        ConfigError::RateInvalid
    } else {
        ConfigError::ThresholdBlocksTimer
    }
}

/// One-time bring-up: establishes a known-good state before any firing can
/// be dispatched. Succeeds exactly on valid configurations, and always
/// produces the same state for the same configuration: display cleared to
/// black, counter at zero, source unmasked, interrupts enabled.
pub fn bring_up(cfg: BringUpConfig) -> (r: Result<System, ConfigError>)
    ensures
        r is Ok <==> config_ok(cfg),
        r is Ok ==> ready(r->Ok_0, cfg) && protocol_inv(r->Ok_0),
        r is Err ==> r->Err_0 == config_error(cfg),
{
    // Step 1: clock parameters must be usable at all.
    if cfg.clock.ext_hz == 0 || cfg.clock.sys_hz == 0 {
        return Err(ConfigError::ClockInvalid);
    }
    // Step 2: the periodic timer must have a realizable rate.
    if cfg.rate_hz == 0 || cfg.rate_hz > cfg.clock.sys_hz {
        return Err(ConfigError::RateInvalid);
    }
    // Steps 3 and 4: the controller's threshold must let the timer's level
    // through, or the handler could never run.
    if cfg.irq.level <= cfg.irq.threshold_level {
        return Err(ConfigError::ThresholdBlocksTimer);
    }
    // Step 5: the display is constructed before interrupts are unmasked;
    // the handler assumes it is already initialized.
    let mut screen = Screen::new(cfg.width, cfg.height);
    // Step 6: clear the display to a known background. The surface is
    // fresh, so this cannot fail.
    let cleared = screen.fill(Color::Black);
    proof {
        assert(cleared is Ok);
    }
    let mut s = System {
        clock: cfg.clock,
        rate_hz: cfg.rate_hz,
        irq: cfg.irq,
        listening: true,
        // The source stays masked until the very last step.
        masked: true,
        global_enabled: false,
        pending: false,
        counter: 0,
        screen,
        label: "Counter value: ".to_owned(),
        staged: None,
        phase: Phase::Idle,
        halted: false,
    };
    // Step 7: the single transition point after which the handler may run:
    // unmask the source, then enable interrupts globally.
    s.masked = false;
    s.global_enabled = true;
    Ok(s)
}

/// A hardware tick of the periodic timer: if update-event generation is on,
/// the pending flag is raised. The flag is a single bit, so ticks that
/// arrive while one is already held coalesce into at most one pending event.
pub fn timer_tick(s: &mut System)
    ensures
        final(s).pending == (old(s).pending || old(s).listening),
        final(s).masked == old(s).masked,
        final(s).global_enabled == old(s).global_enabled,
        final(s).counter == old(s).counter,
        final(s).screen == old(s).screen,
        final(s).staged == old(s).staged,
        final(s).phase == old(s).phase,
        final(s).halted == old(s).halted,
        same_device_config(*old(s), *final(s)),
{
    if s.listening {
        s.pending = true;
    }
}

/// Whether a held firing would be dispatched right now.
pub fn dispatch_ready(s: &System) -> (r: bool)
    ensures
        r == dispatchable(*s),
{
    !s.halted && s.phase == Phase::Idle && s.pending && !s.masked && s.global_enabled
        && s.irq.level > s.irq.threshold_level
}

/// Handler entry: before anything else, disable interrupts globally and mask
/// this source at the controller. This closes the re-entrancy window for the
/// whole firing.
pub fn irq_entry(s: &mut System)
    requires
        dispatchable(*old(s)),
    ensures
        *final(s) == (System {
            masked: true,
            global_enabled: false,
            phase: Phase::Entered,
            ..*old(s)
        }),
        protocol_inv(*final(s)),
        same_device_config(*old(s), *final(s)),
{
    s.global_enabled = false;
    s.masked = true;
    s.phase = Phase::Entered;
}

/// Acknowledge: clear the peripheral's pending-update flag. Skipping this
/// would let the same event re-trigger the moment the source is unmasked.
pub fn irq_acknowledge(s: &mut System)
    requires
        old(s).phase is Entered,
    ensures
        *final(s) == (System { pending: false, phase: Phase::Acknowledged, ..*old(s) }),
        same_device_config(*old(s), *final(s)),
{
    s.pending = false;
    s.phase = Phase::Acknowledged;
}

/// Render: format the current counter value behind the label into the
/// fixed-capacity buffer. A line that would not fit is a fatal condition:
/// the device halts rather than paint truncated text.
pub fn irq_render(s: &mut System)
    requires
        old(s).phase is Acknowledged,
        !old(s).halted,
        is_ascii_chars(old(s).label@),
    ensures
        same_device_config(*old(s), *final(s)),
        final(s).masked == old(s).masked,
        final(s).global_enabled == old(s).global_enabled,
        final(s).pending == old(s).pending,
        final(s).counter == old(s).counter,
        final(s).screen == old(s).screen,
        render_fits(*old(s)) ==> {
            &&& final(s).phase is Rendered
            &&& !final(s).halted
            &&& final(s).staged is Some
            &&& final(s).staged->0@ == status_line(old(s).label@, old(s).counter)
        },
        !render_fits(*old(s)) ==> final(s).halted && final(s).staged is None && final(s).phase
            == old(s).phase,
{
    match render_line(s.label.as_str(), s.counter) {
        Ok(line) => {
            s.staged = Some(line);
            s.phase = Phase::Rendered;
        },
        Err(RenderError::Overflow) => {
            s.staged = None;
            s.halted = true;
        },
    }
}

/// Repaint: clear the full display rectangle to the background color, then
/// draw the staged line at the fixed anchor. Any drawing-surface failure is
/// fatal; the device halts rather than resume with the display half-drawn.
pub fn irq_repaint(s: &mut System)
    requires
        old(s).phase is Rendered,
        !old(s).halted,
        old(s).staged is Some,
    ensures
        same_device_config(*old(s), *final(s)),
        final(s).masked == old(s).masked,
        final(s).global_enabled == old(s).global_enabled,
        final(s).pending == old(s).pending,
        final(s).counter == old(s).counter,
        !old(s).screen.fault ==> {
            &&& final(s).phase is Repainted
            &&& !final(s).halted
            &&& final(s).staged is None
            &&& final(s).screen.frame matches Frame::Painted {
                background,
                text,
                anchor_x,
                anchor_y,
                style,
            } && background == Color::Black && text@ == old(s).staged->0@ && anchor_x
                == TEXT_ANCHOR_X && anchor_y == TEXT_ANCHOR_Y && style == line_style()
        },
        old(s).screen.fault ==> final(s).halted && final(s).phase == old(s).phase
            && final(s).screen.frame is Indeterminate,
{
    if s.screen.fill(Color::Black).is_err() {
        s.halted = true;
        return;
    }
    let drawn = match &s.staged {
        Some(line) => s.screen.draw_text(
            line,
            TEXT_ANCHOR_X,
            TEXT_ANCHOR_Y,
            TextStyle { foreground: Color::Black, background: Color::Green },
        ),
        None => Ok(()),
    };
    if drawn.is_err() {
        s.halted = true;
        return;
    }
    s.staged = None;
    s.phase = Phase::Repainted;
}

/// Advance: increment the counter, wrapping at the top of its range. The
/// counter is a display value; wraparound is accepted, not an error.
pub fn irq_advance(s: &mut System)
    requires
        old(s).phase is Repainted,
    ensures
        *final(s) == (System {
            counter: ((old(s).counter as int + 1) % crate::counter_modulus()) as u32,
            phase: Phase::Advanced,
            ..*old(s)
        }),
        same_device_config(*old(s), *final(s)),
{
    if s.counter == 0xFFFF_FFFFu32 {
        s.counter = 0;
    } else {
        s.counter = s.counter + 1;
    }
    s.phase = Phase::Advanced;
}

/// Re-arm, the handler's very last step and in this order: unmask the source
/// at the controller, then re-enable interrupts globally. The event was
/// acknowledged earlier, so unmasking cannot re-trigger the firing that was
/// just handled; a tick held while the handler ran stays pending and will be
/// dispatched now that the source is live again.
pub fn irq_rearm(s: &mut System)
    requires
        old(s).phase is Advanced,
    ensures
        *final(s) == (System {
            masked: false,
            global_enabled: true,
            phase: Phase::Idle,
            ..*old(s)
        }),
        same_device_config(*old(s), *final(s)),
{
    s.masked = false;
    s.global_enabled = true;
    s.phase = Phase::Idle;
}

/// One complete firing of the timer interrupt, phase by phase. On the
/// normal path it realizes `firing_relation`: the frame shows the value the
/// firing began with, then the counter advances — the first firing displays
/// zero. A render overflow or a drawing fault halts the device with the
/// source still masked; the frame is never left showing truncated text.
pub fn handle_firing(s: &mut System)
    requires
        dispatchable(*old(s)),
        is_ascii_chars(old(s).label@),
    ensures
        same_device_config(*old(s), *final(s)),
        protocol_inv(*final(s)),
        !final(s).pending,
        !old(s).screen.fault && render_fits(*old(s)) ==> firing_relation(*old(s), *final(s)),
        old(s).screen.fault || !render_fits(*old(s)) ==> final(s).halted && final(s).masked
            && !final(s).global_enabled && final(s).counter == old(s).counter,
        !render_fits(*old(s)) ==> final(s).screen.frame == old(s).screen.frame,
{
    irq_entry(s);
    irq_acknowledge(s);
    irq_render(s);
    if s.halted {
        return;
    }
    irq_repaint(s);
    if s.halted {
        return;
    }
    irq_advance(s);
    irq_rearm(s);
}

/// The standard label is ASCII and fifteen characters long.
pub proof fn lemma_counter_label_ascii()
    ensures
        is_ascii_chars(counter_label()),
        counter_label().len() == 15,
{
    reveal_strlit("Counter value: ");
}

/// With the standard label, a status line fits the buffer for every counter
/// value: fifteen label characters and at most ten digits against a capacity
/// of 32. The formatting-overflow halt is therefore unreachable on a device
/// brought up with this label; it guards the configured boundary, nothing
/// within it.
pub proof fn lemma_standard_label_fits(s: System)
    requires
        s.label@ == counter_label(),
    ensures
        render_fits(s),
{
    lemma_counter_label_ascii();
    crate::render::lemma_u32_decimal_len(s.counter);
}

/// Idempotent bring-up: two systems brought up with the same configuration
/// are observably the same — display cleared to the background, counter at
/// zero, interrupt source unmasked, global interrupts enabled, nothing
/// pending.
pub proof fn lemma_bring_up_deterministic(a: System, b: System, cfg: BringUpConfig)
    requires
        ready(a, cfg),
        ready(b, cfg),
    ensures
        a.clock == b.clock,
        a.rate_hz == b.rate_hz,
        a.irq == b.irq,
        a.listening == b.listening,
        a.masked == b.masked,
        a.global_enabled == b.global_enabled,
        a.pending == b.pending,
        a.counter == b.counter,
        a.label@ == b.label@,
        a.staged is None && b.staged is None,
        a.phase == b.phase,
        a.halted == b.halted,
        a.screen.width == b.screen.width,
        a.screen.height == b.screen.height,
        a.screen.fault == b.screen.fault,
        a.screen.frame == b.screen.frame,
{
}

/// Monotonic display: across consecutive successful firings, the displayed
/// counter value advances by exactly one, wrapping at the top of the
/// counter's range. Each firing paints the value it began with, and leaves
/// the counter one higher (modulo the range) for the next.
pub proof fn lemma_monotonic_display(s0: System, s1: System, s2: System)
    requires
        firing_relation(s0, s1),
        firing_relation(s1, s2),
    ensures
        s1.screen.frame matches Frame::Painted { text, .. } && text@ == status_line(
            s0.label@,
            s0.counter,
        ),
        s2.screen.frame matches Frame::Painted { text, .. } && text@ == status_line(
            s0.label@,
            s1.counter,
        ),
        s1.counter as int == (s0.counter as int + 1) % crate::counter_modulus(),
        s2.counter as int == (s1.counter as int + 1) % crate::counter_modulus(),
{
}

/// Exclusive access: under the protocol invariant, whenever the handler is
/// between entry and re-arm the interrupt source is masked and global
/// interrupts are disabled, so no further firing can be dispatched — the
/// shared cell has a single writer. Outside the handler, on a live device,
/// the source is unmasked and interrupts are enabled.
pub proof fn lemma_exclusive_access(s: System)
    requires
        protocol_inv(s),
    ensures
        in_handler(s.phase) ==> s.masked && !s.global_enabled && !dispatchable(s),
        s.phase is Idle && !s.halted ==> !s.masked && s.global_enabled,
{
}

/// Acknowledge before re-arm: a completed firing has cleared the pending
/// flag before unmasking its source, so the event it consumed cannot
/// re-trigger — immediately after the handler returns, nothing is
/// dispatchable until the hardware raises a fresh event.
pub proof fn lemma_acknowledge_before_rearm(pre: System, post: System)
    requires
        firing_relation(pre, post),
    ensures
        !post.pending,
        !dispatchable(post),
{
}

/// Runs `n` firings from an idle, live state with the standard label: each
/// round one hardware tick followed by the dispatched handler. The counter
/// advances by `n` modulo its range, and (for `n > 0`) the frame shows the
/// value the last firing began with — one less than the final counter,
/// modulo the range.
pub fn run_firings(s: &mut System, n: u32)
    requires
        protocol_inv(*old(s)),
        old(s).phase is Idle,
        !old(s).halted,
        !old(s).pending,
        !old(s).screen.fault,
        old(s).listening,
        old(s).label@ == counter_label(),
        old(s).irq.level > old(s).irq.threshold_level,
    ensures
        same_device_config(*old(s), *final(s)),
        protocol_inv(*final(s)),
        final(s).phase is Idle,
        !final(s).halted,
        !final(s).pending,
        !final(s).masked,
        final(s).global_enabled,
        final(s).counter as int == (old(s).counter as int + n) % crate::counter_modulus(),
        n > 0 ==> (final(s).screen.frame matches Frame::Painted { text, .. } && text@
            == status_line(
            old(s).label@,
            ((old(s).counter as int + n - 1) % crate::counter_modulus()) as u32,
        )),
        n == 0 ==> final(s).screen.frame == old(s).screen.frame,
{
    let mut i: u32 = 0;
    while i < n
        invariant
            i <= n,
            same_device_config(*old(s), *s),
            protocol_inv(*s),
            s.phase is Idle,
            !s.halted,
            !s.pending,
            !s.masked,
            s.global_enabled,
            s.listening,
            !s.screen.fault,
            s.label@ == counter_label(),
            s.irq.level > s.irq.threshold_level,
            s.counter as int == (old(s).counter as int + i) % crate::counter_modulus(),
            i > 0 ==> (s.screen.frame matches Frame::Painted { text, .. } && text@
                == status_line(
                old(s).label@,
                ((old(s).counter as int + i - 1) % crate::counter_modulus()) as u32,
            )),
            i == 0 ==> s.screen.frame == old(s).screen.frame,
        decreases n - i,
    {
        timer_tick(s);
        proof {
            lemma_counter_label_ascii();
            lemma_standard_label_fits(*s);
        }
        handle_firing(s);
        proof {
            vstd::arithmetic::div_mod::lemma_add_mod_noop(
                old(s).counter as int + i,
                1,
                crate::counter_modulus(),
            );
            vstd::arithmetic::div_mod::lemma_mod_bound(
                old(s).counter as int + i,
                crate::counter_modulus(),
            );
        }
        i = i + 1;
    }
}

} // verus!
