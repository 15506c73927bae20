//! Lifecycle of the chart host and its resize coordinator.
//!
//! The host is configured with a render target (a server stub that only
//! emits the empty container, or an active client) and a numeric DOM
//! element id. Driven by events — mount, the outcome of the asynchronous
//! render, window resizes — it decides which command to issue next: start
//! the one render, or resize the live chart under the fixed policy. The
//! rendered chart's handle is published once into a shared slot, and every
//! resize is taken from a point-in-time snapshot of that slot.

use vstd::prelude::*;

use crate::digits::decimal;
use crate::digits::element_id_string;
use crate::options::ResizeOpts;
use crate::options::auto_resize_opts;
use crate::options::is_auto_resize_opts;

verus! {

/// Where the host runs: a server render that must only emit the empty
/// container, or a client execution context that runs the full lifecycle.
#[derive(Debug, Clone, Copy, PartialEq, Eq, Structural)]
pub enum RenderTarget {
    ServerStub,
    ClientActive,
}

/// A token for one live rendered chart, bound to the container it was
/// rendered into. The renderer's own object stays outside this crate;
/// whoever drives the host keeps it beside this token.
#[derive(Debug, Clone, Copy, PartialEq, Eq, Structural)]
pub struct ChartHandle {
    pub container: i32,
}

/// Why a render call failed: the specification was malformed, or the DOM
/// target was missing or invalid.
#[derive(Debug, Clone, Copy, PartialEq, Eq, Structural)]
pub enum RenderError {
    BadSpec,
    BadTarget,
}

/// Why a resize call failed: the handle no longer names a live chart, or
/// the renderer failed internally. The host discards these.
#[derive(Debug, Clone, Copy, PartialEq, Eq, Structural)]
pub enum ResizeError {
    InvalidHandle,
    RendererInternal,
}

/// The Shared Handle Slot: a single-writer cell that is empty until the
/// first handle is published and keeps that handle from then on.
#[derive(Debug, Clone, Copy)]
pub struct HandleSlot {
    pub current: Option<ChartHandle>,
}

impl HandleSlot {
    /// A slot with no chart yet.
    pub fn empty() -> (r: HandleSlot)
        ensures
            r.current is None,
    {
        HandleSlot { current: None }
    }

    /// Publishes a handle. The slot takes the first handle offered and
    /// ignores every later one: its transition is one-directional.
    pub fn publish(&mut self, h: ChartHandle)
        ensures
            final(self).current == (if old(self).current is None {
                Some(h)
            } else {
                old(self).current
            }),
    {
        if self.current.is_none() {
            self.current = Some(h);
        }
    }

    /// A point-in-time snapshot of the slot's value.
    pub fn snapshot(&self) -> (r: Option<ChartHandle>)
        ensures
            r == self.current,
    {
        self.current
    }
}

/// Which kind of axis a chart declares.
#[derive(Debug, Clone, Copy, PartialEq, Eq, Structural)]
pub enum AxisKind {
    Category,
    Numeric,
}

/// The chart specification the host hands to the renderer: a categorical
/// x-axis, a numeric y-axis, one line series, and the logical canvas size.
#[derive(Debug, Clone)]
pub struct ChartSpec {
    pub x_axis: AxisKind,
    pub x_categories: Vec<String>,
    pub y_axis: AxisKind,
    pub series_data: Vec<i32>,
    pub canvas_width: u32,
    pub canvas_height: u32,
}

/// The one chart this host ever renders: the seven weekday categories on a
/// categorical x-axis, a numeric y-axis, the fixed seven-point line series,
/// on a 600 by 600 logical canvas.
pub open spec fn is_week_chart_spec(s: ChartSpec) -> bool {
    &&& s.x_axis is Category
    &&& s.x_categories@.len() == 7
    &&& s.x_categories@[0]@ == "Mon"@
    &&& s.x_categories@[1]@ == "Tue"@
    &&& s.x_categories@[2]@ == "Wed"@
    &&& s.x_categories@[3]@ == "Thu"@
    &&& s.x_categories@[4]@ == "Fri"@
    &&& s.x_categories@[5]@ == "Sat"@
    &&& s.x_categories@[6]@ == "Sun"@
    &&& s.y_axis is Numeric
    &&& s.series_data@ == seq![150i32, 230i32, 224i32, 218i32, 135i32, 147i32, 260i32]
    &&& s.canvas_width == 600
    &&& s.canvas_height == 600
}

/// Builds the fixed weekly chart specification.
pub fn week_chart_spec() -> (r: ChartSpec)
    ensures
        is_week_chart_spec(r),
{
    let mut cats: Vec<String> = Vec::new();
    cats.push(String::from_str("Mon"));
    cats.push(String::from_str("Tue"));
    cats.push(String::from_str("Wed"));
    cats.push(String::from_str("Thu"));
    cats.push(String::from_str("Fri"));
    cats.push(String::from_str("Sat"));
    cats.push(String::from_str("Sun"));
    let mut data: Vec<i32> = Vec::new();
    data.push(150);
    data.push(230);
    data.push(224);
    data.push(218);
    data.push(135);
    data.push(147);
    data.push(260);
    let r = ChartSpec {
        x_axis: AxisKind::Category,
        x_categories: cats,
        y_axis: AxisKind::Numeric,
        series_data: data,
        canvas_width: 600,
        canvas_height: 600,
    };
    proof {
        assert(r.series_data@ =~= seq![150i32, 230i32, 224i32, 218i32, 135i32, 147i32, 260i32]);
    }
    r
}

/// The title text a later chart update sets.
pub fn title_update_text() -> (r: String)
    ensures
        r@ == "Hello Charming Leptos"@,
{
    String::from_str("Hello Charming Leptos")
}

/// What the host can observe: its mount, the settled outcome of the
/// asynchronous render, a window resize, or a failed resize call.
#[derive(Debug, Clone, Copy)]
pub enum HostEvent {
    Mount,
    RenderSucceeded(ChartHandle),
    RenderFailed(RenderError),
    WindowResize,
    ResizeFailed(ResizeError),
}

/// What the host asks its surroundings to do next: render the chart into
/// the named container, resize the live chart, or nothing.
#[derive(Debug, Clone)]
pub enum HostAction {
    StartRender(String, ChartSpec),
    Resize(ResizeOpts),
    Nothing,
}

/// The chart host's whole state.
#[derive(Debug, Clone, Copy)]
pub struct ChartHost {
    pub target: RenderTarget,
    pub element_id: i32,
    pub render_started: bool,
    pub slot: HandleSlot,
}

/// The state after one event: a mount on a client starts the one render; a
/// successful render publishes its handle into the slot, once; everything
/// else leaves the state alone.
pub open spec fn spec_step_state(s: ChartHost, ev: HostEvent) -> ChartHost {
    match ev {
        HostEvent::Mount => ChartHost {
            render_started: s.render_started || s.target is ClientActive,
            ..s
        },
        HostEvent::RenderSucceeded(h) => ChartHost {
            slot: HandleSlot {
                current: if s.slot.current is None {
                    Some(h)
                } else {
                    s.slot.current
                },
            },
            ..s
        },
        HostEvent::RenderFailed(_) => s,
        HostEvent::WindowResize => s,
        HostEvent::ResizeFailed(_) => s,
    }
}

/// Whether this event makes the host start the render: only a mount, only
/// on a client, and only if the render was not started before.
pub open spec fn emits_render(s: ChartHost, ev: HostEvent) -> bool {
    ev is Mount && s.target is ClientActive && !s.render_started
}

/// Whether this event makes the host issue a resize: the initial resize
/// right after the handle is published, and every window resize for which
/// the slot snapshot holds a handle.
pub open spec fn emits_resize(s: ChartHost, ev: HostEvent) -> bool {
    match ev {
        HostEvent::RenderSucceeded(_) => s.slot.current is None,
        HostEvent::WindowResize => s.slot.current is Some,
        _ => false,
    }
}

impl ChartHost {
    /// A freshly composed host: nothing rendered, the slot empty.
    pub fn new(target: RenderTarget, element_id: i32) -> (r: ChartHost)
        ensures
            r.target == target,
            r.element_id == element_id,
            !r.render_started,
            r.slot.current is None,
    {
        ChartHost { target, element_id, render_started: false, slot: HandleSlot::empty() }
    }

    /// Takes one event and decides the next command. The new state is
    /// exactly `spec_step_state`; a render request carries the decimal form
    /// of the element id and the fixed weekly specification; a resize
    /// request carries the fixed-policy options.
    pub fn step(&mut self, ev: HostEvent) -> (r: HostAction)
        ensures
            *final(self) == spec_step_state(*old(self), ev),
            r is StartRender <==> emits_render(*old(self), ev),
            r is Resize <==> emits_resize(*old(self), ev),
            r is Nothing <==> !emits_render(*old(self), ev) && !emits_resize(*old(self), ev),
            r matches HostAction::StartRender(id, spec) ==> id@ == decimal(
                old(self).element_id as int,
            ) && is_week_chart_spec(spec),
            r matches HostAction::Resize(o) ==> is_auto_resize_opts(o),
    {
        match ev {
            HostEvent::Mount => {
                let start = self.target == RenderTarget::ClientActive && !self.render_started;
                if self.target == RenderTarget::ClientActive {
                    self.render_started = true;
                }
                if start {
                    HostAction::StartRender(element_id_string(self.element_id), week_chart_spec())
                } else {
                    HostAction::Nothing
                }
            },
            HostEvent::RenderSucceeded(h) => {
                if self.slot.snapshot().is_none() {
                    self.slot.publish(h);
                    HostAction::Resize(auto_resize_opts())
                } else {
                    HostAction::Nothing
                }
            },
            HostEvent::RenderFailed(_) => HostAction::Nothing,
            HostEvent::WindowResize => {
                match auto_chart_resize(&self.slot.snapshot()) {
                    Some(o) => HostAction::Resize(o),
                    None => HostAction::Nothing,
                }
            },
            HostEvent::ResizeFailed(_) => HostAction::Nothing,
        }
    }
}

/// The resize coordinator's decision, from a point-in-time snapshot of the
/// Shared Handle Slot: no chart, no resize; a chart, one resize with the
/// fixed-policy options.
pub fn auto_chart_resize(slot: &Option<ChartHandle>) -> (r: Option<ResizeOpts>)
    ensures
        r is Some <==> slot is Some,
        r matches Some(o) ==> is_auto_resize_opts(o),
{
    match slot {
        Some(_) => Some(auto_resize_opts()),
        None => None,
    }
}

/// The state the host reaches after a whole sequence of events.
pub open spec fn run(s: ChartHost, evs: Seq<HostEvent>) -> ChartHost
    decreases evs.len(),
{
    if evs.len() == 0 {
        s
    } else {
        run(spec_step_state(s, evs[0]), evs.drop_first())
    }
}

/// The Shared Handle Slot's transition is one-directional: once a handle
/// occupies it, every later state holds that same handle, whatever events
/// arrive.
pub proof fn lemma_slot_monotonic(s: ChartHost, evs: Seq<HostEvent>, h: ChartHandle)
    requires
        s.slot.current == Some(h),
    ensures
        run(s, evs).slot.current == Some(h),
    decreases evs.len(),
{
    if evs.len() > 0 {
        assert(spec_step_state(s, evs[0]).slot.current == Some(h));
        lemma_slot_monotonic(spec_step_state(s, evs[0]), evs.drop_first(), h);
    }
}

/// Without a successful render there is no handle: over any events that
/// hold no render success, an empty slot stays empty.
pub proof fn lemma_slot_empty_without_success(s: ChartHost, evs: Seq<HostEvent>)
    requires
        s.slot.current is None,
        forall|j: int| 0 <= j < evs.len() ==> !(#[trigger] evs[j] is RenderSucceeded),
    ensures
        run(s, evs).slot.current is None,
    decreases evs.len(),
{
    if evs.len() > 0 {
        assert(!(evs[0] is RenderSucceeded));
        assert forall|j: int| 0 <= j < evs.drop_first().len() implies !(#[trigger] evs.drop_first()[j]
            is RenderSucceeded) by {
            assert(evs.drop_first()[j] == evs[j + 1]);
        }
        lemma_slot_empty_without_success(spec_step_state(s, evs[0]), evs.drop_first());
    }
}

/// The resize coordinator never acts before the Shared Handle Slot is
/// populated: in any event sequence from a host whose slot is empty, a step
/// with no render success at or before it issues no resize.
pub proof fn lemma_no_resize_before_publish(s: ChartHost, evs: Seq<HostEvent>, i: int)
    requires
        s.slot.current is None,
        0 <= i < evs.len(),
        forall|j: int| 0 <= j <= i ==> !(#[trigger] evs[j] is RenderSucceeded),
    ensures
        !emits_resize(run(s, evs.take(i)), evs[i]),
{
    assert forall|j: int| 0 <= j < evs.take(i).len() implies !(#[trigger] evs.take(i)[j]
        is RenderSucceeded) by {
        assert(evs.take(i)[j] == evs[j]);
    }
    lemma_slot_empty_without_success(s, evs.take(i));
    assert(!(evs[i] is RenderSucceeded));
}

/// How many render requests the host issues over an event sequence.
pub open spec fn render_count(s: ChartHost, evs: Seq<HostEvent>) -> nat
    decreases evs.len(),
{
    if evs.len() == 0 {
        0
    } else {
        (if emits_render(s, evs[0]) {
            1nat
        } else {
            0nat
        }) + render_count(spec_step_state(s, evs[0]), evs.drop_first())
    }
}

/// The host renders exactly once per mount-lifetime: never again once a
/// render was started, never on a server stub, and on a fresh client
/// exactly once as soon as the events hold a mount.
pub proof fn lemma_render_exactly_once(s: ChartHost, evs: Seq<HostEvent>)
    ensures
        s.render_started ==> render_count(s, evs) == 0,
        s.target is ServerStub ==> render_count(s, evs) == 0,
        !s.render_started && s.target is ClientActive ==> render_count(s, evs) == (if exists|j: int|
            0 <= j < evs.len() && #[trigger] evs[j] is Mount {
            1nat
        } else {
            0nat
        }),
    decreases evs.len(),
{
    if evs.len() > 0 {
        let s1 = spec_step_state(s, evs[0]);
        lemma_render_exactly_once(s1, evs.drop_first());
        if !s.render_started && s.target is ClientActive {
            if evs[0] is Mount {
                assert(s1.render_started);
                assert(render_count(s, evs) == 1);
                assert(exists|j: int| 0 <= j < evs.len() && #[trigger] evs[j] is Mount);
            } else {
                assert(!s1.render_started && s1.target is ClientActive);
                if exists|j: int| 0 <= j < evs.drop_first().len() && #[trigger] evs.drop_first()[j]
                    is Mount {
                    let j = choose|j: int|
                        0 <= j < evs.drop_first().len() && #[trigger] evs.drop_first()[j] is Mount;
                    assert(evs[j + 1] == evs.drop_first()[j]);
                    assert(exists|k: int| 0 <= k < evs.len() && #[trigger] evs[k] is Mount);
                } else {
                    if exists|k: int| 0 <= k < evs.len() && #[trigger] evs[k] is Mount {
                        let k = choose|k: int| 0 <= k < evs.len() && #[trigger] evs[k] is Mount;
                        assert(k != 0);
                        assert(evs.drop_first()[k - 1] == evs[k]);
                        assert(false);
                    }
                }
            }
        }
    }
}

} // verus!
