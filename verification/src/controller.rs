use vstd::prelude::*;
use crate::actions::Action;
use crate::actions::is_bridge_release;
use crate::actions::is_release;
use crate::actions::is_surface_release;
use crate::bridge::MediaRenderBridge;
use crate::surface::GpuSurface;
use crate::timing::bar_permille_spec;
use crate::timing::clamp_time;
use crate::timing::get_ts_label;
use crate::timing::normalize_reading;
use crate::timing::seek_bar_permille;
use crate::timing::seek_target_milliseconds;
use crate::timing::seek_target_milliseconds_spec;
use crate::timing::ts_label_chars;

verus! {

/// Lifecycle of the frame-sync controller: resources are created lazily on
/// the host's setup notification (the GPU context exists only then) and
/// destroyed exactly once on the matching teardown notification.
#[derive(Clone, Copy, PartialEq, Eq, Structural, Debug)]
pub enum Phase {
    /// No GPU or engine resource exists yet.
    Uninitialized,
    /// Surface and bridge exist; ticks run.
    Ready,
    /// Terminal: everything was released.
    TornDown,
}

/// The record shared with the UI layer.  The UI writes only the
/// `requested_*` fields and clears `seek_acknowledged` when it posts a new
/// seek; the controller writes only `seek_acknowledged` and the
/// `last_known_*` fields.  Both sides run on the host's single cooperative
/// tick boundary, so this single-writer-per-field split needs no lock.
#[derive(Clone, Copy, PartialEq, Eq, Structural, Debug)]
pub struct PlaybackCommandState {
    /// UI-requested pause flag.
    pub requested_pause: bool,
    /// UI-requested seek fraction, in thousandths of the duration.
    pub requested_seek_permille: u32,
    /// Set by the controller once the pending seek request was forwarded.
    pub seek_acknowledged: bool,
    /// Last engine position reading, normalized (unknown counts as zero).
    pub last_known_position_seconds: i64,
    /// Last engine duration reading, normalized (unknown counts as zero).
    pub last_known_duration_seconds: i64,
}

/// What the embedding shell hands the controller for one tick: the current
/// physical output size, and the engine's transport readings taken this
/// tick (absent before the engine has established timing).
#[derive(Clone, Copy, Debug)]
pub struct TickInput {
    pub width: u32,
    pub height: u32,
    pub position: Option<i64>,
    pub duration: Option<i64>,
}

/// What one host notification produces: the ordered commands to perform,
/// and the values republished to the UI.
pub struct TickOutput {
    /// Commands for the shell to execute, in exactly this order.
    pub actions: Vec<Action>,
    /// Timestamp text to publish (`position / duration`, both `HH:MM:SS`);
    /// empty for notifications that publish nothing.
    pub timestamp_label: String,
    /// Normalized seek-bar position in thousandths, in 0..=1000.
    pub seek_bar_permille: u32,
}

/// The per-tick orchestrator.  It owns the logical state of the GPU surface
/// and the media-render bridge, constructs them in that order on setup,
/// runs the fixed per-tick sequence, and tears the bridge down strictly
/// before the surface.
pub struct FrameSyncController {
    pub phase: Phase,
    pub surface: GpuSurface,
    pub bridge: MediaRenderBridge,
    /// The pause state last forwarded to the bridge; forwarding happens
    /// only when the UI flag differs from this (edge-triggered).
    pub last_applied_pause: bool,
}

/// One host notification, tagged as the host's render loop reports it.
#[derive(Clone, Copy, Debug)]
pub enum HostEvent {
    /// The GPU context is ready; the output size is the host's logical
    /// window size times its display scale factor.
    Setup { width: u32, height: u32 },
    /// The host is about to draw this tick.
    BeforeDraw { input: TickInput },
    /// The host finished drawing this tick.
    AfterDraw,
    /// The host is about to destroy its GPU context.
    Teardown,
}

/// Output sizes the host reports are positive.
pub open spec fn event_wf(e: HostEvent) -> bool {
    match e {
        HostEvent::Setup { width, height } => width > 0 && height > 0,
        HostEvent::BeforeDraw { input } => input.width > 0 && input.height > 0,
        _ => true,
    }
}

/// Pause forwarding is edge-triggered: one engine command exactly when the
/// UI flag differs from the last-applied state, none otherwise.
pub open spec fn pause_action_seq(last_applied: bool, requested: bool) -> Seq<Action> {
    if requested != last_applied {
        seq![Action::SetPause(requested)]
    } else {
        Seq::empty()
    }
}

/// A pending (unacknowledged) seek request is forwarded as one absolute
/// seek at the exact target `fraction * duration`; an acknowledged request
/// produces nothing.
pub open spec fn seek_action_seq(cmd: PlaybackCommandState, input: TickInput) -> Seq<Action> {
    if !cmd.seek_acknowledged {
        seq![
            Action::SeekAbsolute {
                target_milliseconds: seek_target_milliseconds_spec(
                    cmd.requested_seek_permille,
                    input.duration,
                ) as i64,
            },
        ]
    } else {
        Seq::empty()
    }
}

/// The render-into-framebuffer step: bind the offscreen target, set its
/// clear color, and drive the engine's render call at the current size.
pub open spec fn render_action_seq(width: u32, height: u32) -> Seq<Action> {
    seq![
        Action::BindOffscreenFramebuffer,
        Action::SetClearColorDark,
        Action::RenderFrame { width, height, flip_vertically: true },
    ]
}

/// The full command sequence of one tick, in the fixed order: pause edge,
/// pending seek, resize, render-into-framebuffer, compositing pass, and
/// the request for the next tick.
pub open spec fn tick_action_seq(
    c: FrameSyncController,
    cmd: PlaybackCommandState,
    input: TickInput,
) -> Seq<Action> {
    pause_action_seq(c.last_applied_pause, cmd.requested_pause) + seek_action_seq(cmd, input)
        + c.surface.resize_actions(input.width, input.height)
        + render_action_seq(input.width, input.height) + GpuSurface::composite_actions()
        + seq![Action::RequestRedraw]
}

/// The shared record after one tick: the pending seek (if any) is
/// acknowledged, the last-known readings are republished, and the
/// UI-owned `requested_*` fields are untouched.
pub open spec fn cmd_after_spec(cmd: PlaybackCommandState, input: TickInput) -> PlaybackCommandState {
    PlaybackCommandState {
        seek_acknowledged: true,
        last_known_position_seconds: clamp_time(input.position) as i64,
        last_known_duration_seconds: clamp_time(input.duration) as i64,
        ..cmd
    }
}

/// The setup work: every GPU-surface object strictly before any engine
/// object, because the engine's render context binds to the GPU context.
pub open spec fn setup_action_seq(width: u32, height: u32) -> Seq<Action> {
    GpuSurface::initialize_actions(width, height) + MediaRenderBridge::initialize_actions()
}

/// The teardown work: the whole playback session (render context, then
/// playback context) strictly before any GPU-surface deletion.
pub open spec fn teardown_action_seq() -> Seq<Action> {
    MediaRenderBridge::release_actions() + GpuSurface::release_actions()
}

impl FrameSyncController {
    /// In the ready phase, both resource domains are fully alive.
    pub open spec fn wf(self) -> bool {
        self.phase == Phase::Ready ==> {
            &&& self.surface.alive
            &&& self.surface.wf()
            &&& self.bridge.ready()
            &&& self.bridge.wf()
        }
    }

    /// A controller that has not seen the host's setup notification yet.
    pub fn new() -> (c: FrameSyncController)
        ensures
            c.phase == Phase::Uninitialized,
            !c.last_applied_pause,
            c.wf(),
    {
        FrameSyncController {
            phase: Phase::Uninitialized,
            surface: GpuSurface { width: 1, height: 1, realloc_count: 0, alive: false },
            bridge: MediaRenderBridge {
                engine_context_alive: false,
                render_context_alive: false,
                source_loaded: false,
            },
            last_applied_pause: false,
        }
    }

    /// First setup notification: construct the GPU surface, then the media
    /// bridge, in that order.
    pub fn setup(&mut self, width: u32, height: u32) -> (acts: Vec<Action>)
        requires
            old(self).phase == Phase::Uninitialized,
            width > 0,
            height > 0,
        ensures
            final(self).phase == Phase::Ready,
            final(self).wf(),
            final(self).surface == GpuSurface::initialize_spec(width, height),
            final(self).bridge.ready(),
            final(self).last_applied_pause == old(self).last_applied_pause,
            acts@ == setup_action_seq(width, height),
    {
        let (surface, mut acts) = GpuSurface::initialize(width, height);
        let (bridge, mut bridge_acts) = MediaRenderBridge::initialize();
        self.surface = surface;
        self.bridge = bridge;
        self.phase = Phase::Ready;
        acts.append(&mut bridge_acts);
        proof {
            assert(acts@ =~= setup_action_seq(width, height));
        }
        acts
    }

    /// One tick: forward a pause-flag edge, forward a pending seek, resize
    /// the color attachment if the output size changed, republish the
    /// timestamp text and seek-bar position, drive the engine's render into
    /// the offscreen framebuffer, composite it to the default target, and
    /// request the next tick.
    pub fn tick(&mut self, cmd: &mut PlaybackCommandState, input: TickInput) -> (out: TickOutput)
        requires
            old(self).phase == Phase::Ready,
            old(self).wf(),
            input.width > 0,
            input.height > 0,
        ensures
            final(self).phase == Phase::Ready,
            final(self).wf(),
            final(self).bridge == old(self).bridge,
            final(self).surface == old(self).surface.resize_spec(input.width, input.height),
            final(self).last_applied_pause == old(cmd).requested_pause,
            *final(cmd) == cmd_after_spec(*old(cmd), input),
            out.actions@ == tick_action_seq(*old(self), *old(cmd), input),
            out.timestamp_label@ == ts_label_chars(
                clamp_time(input.position) as nat,
                clamp_time(input.duration) as nat,
            ),
            out.seek_bar_permille == bar_permille_spec(input.position, input.duration),
            out.seek_bar_permille <= 1000,
    {
        let mut actions: Vec<Action> = Vec::new();
        if cmd.requested_pause != self.last_applied_pause {
            let mut pause_acts = if cmd.requested_pause {
                self.bridge.pause()
            } else {
                self.bridge.play()
            };
            actions.append(&mut pause_acts);
            self.last_applied_pause = cmd.requested_pause;
        }
        if !cmd.seek_acknowledged {
            let target = seek_target_milliseconds(cmd.requested_seek_permille, input.duration);
            let mut seek_acts = self.bridge.seek_absolute(target);
            actions.append(&mut seek_acts);
            cmd.seek_acknowledged = true;
        }
        let mut resize_acts = self.surface.resize_if_needed(input.width, input.height);
        actions.append(&mut resize_acts);
        let timestamp_label = get_ts_label(input.position, input.duration);
        let bar = seek_bar_permille(input.position, input.duration);
        cmd.last_known_position_seconds = normalize_reading(input.position);
        cmd.last_known_duration_seconds = normalize_reading(input.duration);
        actions.push(Action::BindOffscreenFramebuffer);
        actions.push(Action::SetClearColorDark);
        let mut render_acts = self.bridge.render_into(input.width, input.height);
        actions.append(&mut render_acts);
        let mut composite_acts = self.surface.composite();
        actions.append(&mut composite_acts);
        actions.push(Action::RequestRedraw);
        proof {
            assert(actions@ =~= tick_action_seq(*old(self), *old(cmd), input));
        }
        TickOutput { actions, timestamp_label, seek_bar_permille: bar }
    }

    /// Teardown notification: release the media bridge strictly before the
    /// GPU surface, so the engine's render context never outlives either
    /// context it depends on.
    pub fn teardown(&mut self) -> (acts: Vec<Action>)
        requires
            old(self).phase == Phase::Ready,
            old(self).wf(),
        ensures
            final(self).phase == Phase::TornDown,
            final(self).wf(),
            !final(self).bridge.engine_context_alive,
            !final(self).bridge.render_context_alive,
            !final(self).surface.alive,
            acts@ == teardown_action_seq(),
    {
        let mut acts = self.bridge.release();
        let mut surface_acts = self.surface.release();
        acts.append(&mut surface_acts);
        self.phase = Phase::TornDown;
        proof {
            assert(acts@ =~= teardown_action_seq());
        }
        acts
    }

    /// Dispatch one host notification.  Notifications that do not match the
    /// current phase (a draw before setup, a second teardown) are ignored,
    /// producing no commands and no state change.
    pub fn handle_event(&mut self, event: HostEvent, cmd: &mut PlaybackCommandState) -> (out:
        TickOutput)
        requires
            old(self).wf(),
            event_wf(event),
        ensures
            final(self).wf(),
            match event {
                HostEvent::Setup { width, height } => if old(self).phase == Phase::Uninitialized {
                    &&& final(self).phase == Phase::Ready
                    &&& final(self).surface == GpuSurface::initialize_spec(width, height)
                    &&& *final(cmd) == *old(cmd)
                    &&& out.actions@ == setup_action_seq(width, height)
                } else {
                    no_effect(*old(self), *final(self), *old(cmd), *final(cmd), out.actions@)
                },
                HostEvent::BeforeDraw { input } => if old(self).phase == Phase::Ready {
                    &&& final(self).phase == Phase::Ready
                    &&& final(self).surface == old(self).surface.resize_spec(
                        input.width,
                        input.height,
                    )
                    &&& final(self).last_applied_pause == old(cmd).requested_pause
                    &&& *final(cmd) == cmd_after_spec(*old(cmd), input)
                    &&& out.actions@ == tick_action_seq(*old(self), *old(cmd), input)
                    &&& out.timestamp_label@ == ts_label_chars(
                        clamp_time(input.position) as nat,
                        clamp_time(input.duration) as nat,
                    )
                    &&& out.seek_bar_permille == bar_permille_spec(input.position, input.duration)
                } else {
                    no_effect(*old(self), *final(self), *old(cmd), *final(cmd), out.actions@)
                },
                HostEvent::AfterDraw => no_effect(
                    *old(self),
                    *final(self),
                    *old(cmd),
                    *final(cmd),
                    out.actions@,
                ),
                HostEvent::Teardown => if old(self).phase == Phase::Ready {
                    &&& final(self).phase == Phase::TornDown
                    &&& *final(cmd) == *old(cmd)
                    &&& out.actions@ == teardown_action_seq()
                } else {
                    no_effect(*old(self), *final(self), *old(cmd), *final(cmd), out.actions@)
                },
            },
    {
        match event {
            HostEvent::Setup { width, height } => {
                if self.phase == Phase::Uninitialized {
                    let acts = self.setup(width, height);
                    TickOutput {
                        actions: acts,
                        timestamp_label: String::new(),
                        seek_bar_permille: 0,
                    }
                } else {
                    empty_output()
                }
            },
            HostEvent::BeforeDraw { input } => {
                if self.phase == Phase::Ready {
                    self.tick(cmd, input)
                } else {
                    empty_output()
                }
            },
            HostEvent::AfterDraw => empty_output(),
            HostEvent::Teardown => {
                if self.phase == Phase::Ready {
                    let acts = self.teardown();
                    TickOutput {
                        actions: acts,
                        timestamp_label: String::new(),
                        seek_bar_permille: 0,
                    }
                } else {
                    empty_output()
                }
            },
        }
    }
}

/// A notification that was ignored: no commands, no state change.
pub open spec fn no_effect(
    c_old: FrameSyncController,
    c_new: FrameSyncController,
    cmd_old: PlaybackCommandState,
    cmd_new: PlaybackCommandState,
    acts: Seq<Action>,
) -> bool {
    &&& c_new == c_old
    &&& cmd_new == cmd_old
    &&& acts == Seq::<Action>::empty()
}

/// Number of pause-property commands in `s`.
pub open spec fn count_pauses(s: Seq<Action>) -> nat
    decreases s.len(),
{
    if s.len() == 0 {
        0
    } else {
        (if s[0] is SetPause {
            1nat
        } else {
            0nat
        }) + count_pauses(s.drop_first())
    }
}

/// Number of absolute-seek commands in `s`.
pub open spec fn count_seeks(s: Seq<Action>) -> nat
    decreases s.len(),
{
    if s.len() == 0 {
        0
    } else {
        (if s[0] is SeekAbsolute {
            1nat
        } else {
            0nat
        }) + count_seeks(s.drop_first())
    }
}

proof fn lemma_count_pauses_concat(a: Seq<Action>, b: Seq<Action>)
    ensures
        count_pauses(a + b) == count_pauses(a) + count_pauses(b),
    decreases a.len(),
{
    if a.len() == 0 {
        assert(a + b =~= b);
    } else {
        assert((a + b).drop_first() =~= a.drop_first() + b);
        assert((a + b)[0] == a[0]);
        lemma_count_pauses_concat(a.drop_first(), b);
    }
}

proof fn lemma_count_seeks_concat(a: Seq<Action>, b: Seq<Action>)
    ensures
        count_seeks(a + b) == count_seeks(a) + count_seeks(b),
    decreases a.len(),
{
    if a.len() == 0 {
        assert(a + b =~= b);
    } else {
        assert((a + b).drop_first() =~= a.drop_first() + b);
        assert((a + b)[0] == a[0]);
        lemma_count_seeks_concat(a.drop_first(), b);
    }
}

proof fn lemma_count_pauses_zero(s: Seq<Action>)
    requires
        forall|k: int| 0 <= k < s.len() ==> !(#[trigger] s[k] is SetPause),
    ensures
        count_pauses(s) == 0,
    decreases s.len(),
{
    if s.len() > 0 {
        assert(!(s[0] is SetPause));
        assert forall|k: int| 0 <= k < s.drop_first().len() implies !(#[trigger] s.drop_first()[k]
            is SetPause) by {
            assert(s.drop_first()[k] == s[k + 1]);
        }
        lemma_count_pauses_zero(s.drop_first());
    }
}

proof fn lemma_count_seeks_zero(s: Seq<Action>)
    requires
        forall|k: int| 0 <= k < s.len() ==> !(#[trigger] s[k] is SeekAbsolute),
    ensures
        count_seeks(s) == 0,
    decreases s.len(),
{
    if s.len() > 0 {
        assert(!(s[0] is SeekAbsolute));
        assert forall|k: int| 0 <= k < s.drop_first().len() implies !(#[trigger] s.drop_first()[k]
            is SeekAbsolute) by {
            assert(s.drop_first()[k] == s[k + 1]);
        }
        lemma_count_seeks_zero(s.drop_first());
    }
}

proof fn lemma_count_pauses_singleton(a: Action)
    ensures
        count_pauses(seq![a]) == if a is SetPause {
            1nat
        } else {
            0nat
        },
{
    let s = seq![a];
    assert(s.len() == 1);
    assert(s[0] == a);
    assert(s.drop_first() =~= Seq::<Action>::empty());
    assert(count_pauses(s.drop_first()) == 0);
}

proof fn lemma_count_seeks_singleton(a: Action)
    ensures
        count_seeks(seq![a]) == if a is SeekAbsolute {
            1nat
        } else {
            0nat
        },
{
    let s = seq![a];
    assert(s.len() == 1);
    assert(s[0] == a);
    assert(s.drop_first() =~= Seq::<Action>::empty());
    assert(count_seeks(s.drop_first()) == 0);
}

/// One tick forwards the pause flag to the bridge exactly once when the
/// UI flag differs from the last-applied state, and not at all otherwise.
pub proof fn lemma_tick_pause_count(
    c: FrameSyncController,
    cmd: PlaybackCommandState,
    input: TickInput,
)
    ensures
        count_pauses(tick_action_seq(c, cmd, input)) == if cmd.requested_pause
            != c.last_applied_pause {
            1nat
        } else {
            0nat
        },
{
    let p1 = pause_action_seq(c.last_applied_pause, cmd.requested_pause);
    let p2 = seek_action_seq(cmd, input);
    let p3 = c.surface.resize_actions(input.width, input.height);
    let p4 = render_action_seq(input.width, input.height);
    let p5 = GpuSurface::composite_actions();
    let p6 = seq![Action::RequestRedraw];
    if cmd.requested_pause != c.last_applied_pause {
        lemma_count_pauses_singleton(Action::SetPause(cmd.requested_pause));
    }
    if !cmd.seek_acknowledged {
        lemma_count_pauses_singleton(p2[0]);
        assert(p2 =~= seq![p2[0]]);
    }
    lemma_count_pauses_zero(p3);
    lemma_count_pauses_zero(p4);
    lemma_count_pauses_zero(p5);
    lemma_count_pauses_zero(p6);
    lemma_count_pauses_concat(p1, p2);
    lemma_count_pauses_concat(p1 + p2, p3);
    lemma_count_pauses_concat(p1 + p2 + p3, p4);
    lemma_count_pauses_concat(p1 + p2 + p3 + p4, p5);
    lemma_count_pauses_concat(p1 + p2 + p3 + p4 + p5, p6);
}

/// One tick forwards an absolute seek exactly once when the UI request is
/// still unacknowledged, and not at all otherwise.
pub proof fn lemma_tick_seek_count(
    c: FrameSyncController,
    cmd: PlaybackCommandState,
    input: TickInput,
)
    ensures
        count_seeks(tick_action_seq(c, cmd, input)) == if cmd.seek_acknowledged {
            0nat
        } else {
            1nat
        },
{
    let p1 = pause_action_seq(c.last_applied_pause, cmd.requested_pause);
    let p2 = seek_action_seq(cmd, input);
    let p3 = c.surface.resize_actions(input.width, input.height);
    let p4 = render_action_seq(input.width, input.height);
    let p5 = GpuSurface::composite_actions();
    let p6 = seq![Action::RequestRedraw];
    if cmd.requested_pause != c.last_applied_pause {
        lemma_count_seeks_singleton(Action::SetPause(cmd.requested_pause));
    }
    if !cmd.seek_acknowledged {
        lemma_count_seeks_singleton(p2[0]);
        assert(p2 =~= seq![p2[0]]);
    }
    lemma_count_seeks_zero(p3);
    lemma_count_seeks_zero(p4);
    lemma_count_seeks_zero(p5);
    lemma_count_seeks_zero(p6);
    lemma_count_seeks_concat(p1, p2);
    lemma_count_seeks_concat(p1 + p2, p3);
    lemma_count_seeks_concat(p1 + p2 + p3, p4);
    lemma_count_seeks_concat(p1 + p2 + p3 + p4, p5);
    lemma_count_seeks_concat(p1 + p2 + p3 + p4 + p5, p6);
}

/// A seek request is forwarded exactly once per distinct UI request, not
/// once per tick: the tick that sees it unacknowledged forwards it and
/// acknowledges it, and any later tick — whatever the controller's state
/// by then — forwards nothing until the UI posts a new request.
pub proof fn lemma_seek_acknowledged_once(
    c1: FrameSyncController,
    cmd: PlaybackCommandState,
    i1: TickInput,
    c2: FrameSyncController,
    i2: TickInput,
)
    ensures
        count_seeks(tick_action_seq(c1, cmd, i1)) == if cmd.seek_acknowledged {
            0nat
        } else {
            1nat
        },
        cmd_after_spec(cmd, i1).seek_acknowledged,
        count_seeks(tick_action_seq(c2, cmd_after_spec(cmd, i1), i2)) == 0,
{
    lemma_tick_seek_count(c1, cmd, i1);
    lemma_tick_seek_count(c2, cmd_after_spec(cmd, i1), i2);
}

/// Number of flag transitions over a scripted sequence of per-tick UI
/// pause flags, starting from a given last-applied state.
pub open spec fn count_transitions(last_applied: bool, flags: Seq<bool>) -> nat
    decreases flags.len(),
{
    if flags.len() == 0 {
        0
    } else {
        (if flags[0] != last_applied {
            1nat
        } else {
            0nat
        }) + count_transitions(flags[0], flags.drop_first())
    }
}

/// Total number of pause-property commands the ticks of such a scripted
/// run emit; after each tick the last-applied state is that tick's flag,
/// as `tick` ensures.
pub open spec fn total_pause_commands(last_applied: bool, flags: Seq<bool>) -> nat
    decreases flags.len(),
{
    if flags.len() == 0 {
        0
    } else {
        count_pauses(pause_action_seq(last_applied, flags[0])) + total_pause_commands(
            flags[0],
            flags.drop_first(),
        )
    }
}

/// Pause forwarding is edge-triggered over any scripted run: across any
/// sequence of per-tick UI flag values, the bridge receives exactly one
/// pause-property command per observed flag transition, not one per tick.
pub proof fn lemma_pause_edge_triggered(last_applied: bool, flags: Seq<bool>)
    ensures
        total_pause_commands(last_applied, flags) == count_transitions(last_applied, flags),
    decreases flags.len(),
{
    if flags.len() > 0 {
        lemma_count_pauses_singleton(Action::SetPause(flags[0]));
        lemma_pause_edge_triggered(flags[0], flags.drop_first());
    }
}

/// No tick ever destroys a resource: every destruction belongs to the
/// teardown notification alone.
pub proof fn lemma_tick_no_release(
    c: FrameSyncController,
    cmd: PlaybackCommandState,
    input: TickInput,
)
    ensures
        crate::actions::no_release(tick_action_seq(c, cmd, input)),
{
    let p1 = pause_action_seq(c.last_applied_pause, cmd.requested_pause);
    let p2 = seek_action_seq(cmd, input);
    let p3 = c.surface.resize_actions(input.width, input.height);
    let p4 = render_action_seq(input.width, input.height);
    let p5 = GpuSurface::composite_actions();
    let p6 = seq![Action::RequestRedraw];
    assert(crate::actions::no_release(p1));
    assert(crate::actions::no_release(p2));
    assert(crate::actions::no_release(p3));
    assert(crate::actions::no_release(p4));
    assert(crate::actions::no_release(p5));
    assert(crate::actions::no_release(p6));
    crate::actions::lemma_no_release_concat(p1, p2);
    crate::actions::lemma_no_release_concat(p1 + p2, p3);
    crate::actions::lemma_no_release_concat(p1 + p2 + p3, p4);
    crate::actions::lemma_no_release_concat(p1 + p2 + p3 + p4, p5);
    crate::actions::lemma_no_release_concat(p1 + p2 + p3 + p4 + p5, p6);
}

/// In the teardown sequence, both engine-context destructions come
/// strictly before every GPU-surface deletion: the bridge's release
/// completes before the surface's release begins.
pub proof fn lemma_teardown_order()
    ensures
        teardown_action_seq().len() == 8,
        forall|i: int| 0 <= i < 2 ==> is_bridge_release(#[trigger] teardown_action_seq()[i]),
        forall|j: int| 2 <= j < 8 ==> is_surface_release(#[trigger] teardown_action_seq()[j]),
        forall|i: int, j: int|
            {
                &&& 0 <= i < teardown_action_seq().len()
                &&& 0 <= j < teardown_action_seq().len()
                &&& is_bridge_release(#[trigger] teardown_action_seq()[i])
                &&& is_surface_release(#[trigger] teardown_action_seq()[j])
            } ==> i < j,
{
    let td = teardown_action_seq();
    assert(td[0] == Action::DestroyRenderContext);
    assert(td[1] == Action::DestroyEngineContext);
    assert(td[2] == Action::DeleteProgram);
    assert(td[3] == Action::DeleteQuadBuffer);
    assert(td[4] == Action::DeleteQuadVertexArray);
    assert(td[5] == Action::DeleteColorTexture);
    assert(td[6] == Action::DeleteDepthTexture);
    assert(td[7] == Action::DeleteFramebuffer);
}

/// In the setup sequence, every GPU-surface creation comes strictly before
/// any engine work: the GPU context's objects exist before the engine's
/// render context binds to that context.
pub proof fn lemma_setup_creation_order(width: u32, height: u32)
    ensures
        setup_action_seq(width, height).len() == 8,
        forall|i: int, j: int|
            {
                &&& 0 <= i < setup_action_seq(width, height).len()
                &&& 0 <= j < setup_action_seq(width, height).len()
                &&& crate::actions::is_bridge_setup(#[trigger] setup_action_seq(width, height)[i])
                &&& crate::actions::is_surface_setup(#[trigger] setup_action_seq(width, height)[j])
            } ==> j < i,
{
    let s = setup_action_seq(width, height);
    assert(s[0] == Action::CreateCompositeProgram);
    assert(s[1] == Action::CreateQuadGeometry);
    assert(s[2] == Action::CreateRenderTarget {
        width,
        height,
        depth_extent: crate::surface::MAX_ATTACHMENT_EXTENT,
    });
    assert(s[3] == Action::CreateEngineContext);
    assert(s[4] == Action::RequestDebugLogVerbosity);
    assert(s[5] == Action::CreateRenderContext);
    assert(s[6] == Action::DisableDeprecatedEvents);
    assert(s[7] == Action::LoadAndPlay);
}

/// Teardown ordering over a whole run: for any sequence of tick command
/// lists (which destroy nothing, by `lemma_tick_no_release`) followed by
/// the teardown commands, every engine-context destruction in the combined
/// trace comes strictly before every GPU-surface deletion.
pub proof fn lemma_run_teardown_order(prefix: Seq<Action>)
    requires
        crate::actions::no_release(prefix),
    ensures
        forall|i: int, j: int|
            {
                &&& 0 <= i < (prefix + teardown_action_seq()).len()
                &&& 0 <= j < (prefix + teardown_action_seq()).len()
                &&& is_bridge_release(#[trigger] (prefix + teardown_action_seq())[i])
                &&& is_surface_release(#[trigger] (prefix + teardown_action_seq())[j])
            } ==> i < j,
{
    let td = teardown_action_seq();
    let trace = prefix + td;
    lemma_teardown_order();
    assert forall|i: int, j: int|
        {
            &&& 0 <= i < trace.len()
            &&& 0 <= j < trace.len()
            &&& is_bridge_release(trace[i])
            &&& is_surface_release(trace[j])
        } implies i < j by {
        if i < prefix.len() {
            assert(trace[i] == prefix[i]);
            assert(!is_release(prefix[i]));
        } else {
            assert(trace[i] == td[i - prefix.len()]);
        }
        if j < prefix.len() {
            assert(trace[j] == prefix[j]);
            assert(!is_release(prefix[j]));
        } else {
            assert(trace[j] == td[j - prefix.len()]);
        }
        assert(i - prefix.len() < 2);
        assert(j - prefix.len() >= 2);
    }
}

fn empty_output() -> (out: TickOutput)
    ensures
        out.actions@ == Seq::<Action>::empty(),
        out.timestamp_label@ == Seq::<char>::empty(),
        out.seek_bar_permille == 0,
{
    let out = TickOutput {
        actions: Vec::new(),
        timestamp_label: String::new(),
        seek_bar_permille: 0,
    };
    proof {
        assert(out.actions@ =~= Seq::<Action>::empty());
    }
    out
}

} // verus!
