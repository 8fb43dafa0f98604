//! The panel's own anchored surface: binding to an output, configure
//! negotiation with the host, growth of the requested size, and scaling.
use vstd::prelude::*;

verus! {

/// A width and a height in logical pixels.
#[derive(Debug, Clone, Copy, PartialEq, Eq, Structural)]
pub struct SurfaceSize {
    pub width: u32,
    pub height: u32,
}

/// Where the anchored surface stands in its negotiation with the host.
#[derive(Debug, Clone, Copy, PartialEq, Eq, Structural)]
pub enum LayerState {
    Unbound,
    WaitConfigure { first: bool, width: u32, height: u32 },
    Configured { first: bool, width: u32, height: u32, serial: u32 },
    Quit,
}

/// An event that the host sends about the anchored surface.
#[derive(Debug, Clone, Copy, PartialEq, Eq, Structural)]
pub enum LayerEvent {
    Configure { width: u32, height: u32, serial: u32 },
    Closed,
}

/// A configured dimension: zero keeps the previous value.
pub open spec fn keep_if_zero(new: u32, prev: u32) -> u32 {
    if new == 0 {
        prev
    } else {
        new
    }
}

/// The state that follows `s` on event `e`.
pub open spec fn layer_step(s: LayerState, e: LayerEvent) -> LayerState {
    match e {
        LayerEvent::Closed => LayerState::Quit,
        LayerEvent::Configure { width, height, serial } => match s {
            LayerState::WaitConfigure { first, width: w0, height: h0 } => LayerState::Configured {
                first,
                width: keep_if_zero(width, w0),
                height: keep_if_zero(height, h0),
                serial,
            },
            LayerState::Configured { first: _, width: w0, height: h0, serial: _ } =>
                LayerState::Configured {
                first: false,
                width: keep_if_zero(width, w0),
                height: keep_if_zero(height, h0),
                serial,
            },
            _ => s,
        },
    }
}

/// The state reached from `s` after the events `es`, in order.
pub open spec fn layer_run(s: LayerState, es: Seq<LayerEvent>) -> LayerState
    decreases es.len(),
{
    if es.len() == 0 {
        s
    } else {
        layer_run(layer_step(s, es[0]), es.drop_first())
    }
}

/// Whether the surface takes configure events in state `s`.
pub open spec fn accepts_configure(s: LayerState) -> bool {
    s is WaitConfigure || s is Configured
}

/// Applies a host configure event. Returns the next state and the serial
/// to acknowledge, which is present exactly when the event was honoured.
pub fn configure_layer(s: LayerState, width: u32, height: u32, serial: u32) -> (r: (
    LayerState,
    Option<u32>,
))
    ensures
        r.0 == layer_step(s, LayerEvent::Configure { width, height, serial }),
        r.1 == (if accepts_configure(s) {
            Some(serial)
        } else {
            None::<u32>
        }),
{
    match s {
        LayerState::WaitConfigure { first, width: w0, height: h0 } => {
            let w = if width == 0 {
                w0
            } else {
                width
            };
            let h = if height == 0 {
                h0
            } else {
                height
            };
            (LayerState::Configured { first, width: w, height: h, serial }, Some(serial))
        },
        LayerState::Configured { first: _, width: w0, height: h0, serial: _ } => {
            let w = if width == 0 {
                w0
            } else {
                width
            };
            let h = if height == 0 {
                h0
            } else {
                height
            };
            (LayerState::Configured { first: false, width: w, height: h, serial }, Some(serial))
        },
        _ => (s, None),
    }
}

/// Applies one host event to the surface's state.
pub fn apply_layer_event(s: LayerState, e: LayerEvent) -> (r: LayerState)
    ensures
        r == layer_step(s, e),
{
    match e {
        LayerEvent::Closed => LayerState::Quit,
        LayerEvent::Configure { width, height, serial } => configure_layer(
            s,
            width,
            height,
            serial,
        ).0,
    }
}

/// Applies a run of host events in order.
pub fn apply_layer_events(s: LayerState, es: &Vec<LayerEvent>) -> (r: LayerState)
    ensures
        r == layer_run(s, es@),
{
    let mut cur = s;
    let mut i: usize = 0;
    assert(es@.subrange(0, es@.len() as int) =~= es@);
    while i < es.len()
        invariant
            i <= es@.len(),
            layer_run(s, es@) == layer_run(cur, es@.subrange(i as int, es@.len() as int)),
        decreases es@.len() - i,
    {
        let ghost rest = es@.subrange(i as int, es@.len() as int);
        assert(rest.drop_first() =~= es@.subrange(i + 1, es@.len() as int));
        cur = apply_layer_event(cur, es[i]);
        i = i + 1;
    }
    assert(es@.subrange(i as int, es@.len() as int) =~= Seq::<LayerEvent>::empty());
    cur
}

/// Running two runs of events one after the other is running their concatenation.
pub proof fn lemma_layer_run_append(s: LayerState, a: Seq<LayerEvent>, b: Seq<LayerEvent>)
    ensures
        layer_run(s, a + b) == layer_run(layer_run(s, a), b),
    decreases a.len(),
{
    if a.len() == 0 {
        assert(a + b =~= b);
    } else {
        assert((a + b).drop_first() =~= a.drop_first() + b);
        lemma_layer_run_append(layer_step(s, a[0]), a.drop_first(), b);
    }
}

/// Once the host has closed the surface, no later event moves it out of `Quit`.
pub proof fn lemma_quit_is_final(es: Seq<LayerEvent>)
    ensures
        layer_run(LayerState::Quit, es) == LayerState::Quit,
    decreases es.len(),
{
    if es.len() > 0 {
        lemma_quit_is_final(es.drop_first());
    }
}

/// For any run of events from any state: once a prefix of the run has reached
/// `Quit`, every longer prefix ends in `Quit` as well.
pub proof fn lemma_no_transition_after_quit(s: LayerState, es: Seq<LayerEvent>, i: int, j: int)
    requires
        0 <= i <= j <= es.len(),
        layer_run(s, es.take(i)) == LayerState::Quit,
    ensures
        layer_run(s, es.take(j)) == LayerState::Quit,
{
    assert(es.take(j) =~= es.take(i) + es.subrange(i, j));
    lemma_layer_run_append(s, es.take(i), es.subrange(i, j));
    lemma_quit_is_final(es.subrange(i, j));
}

/// The size on which the host and the panel last agreed, if any.
pub open spec fn negotiated(s: LayerState) -> Option<SurfaceSize> {
    match s {
        LayerState::Configured { width, height, .. } => Some(SurfaceSize { width, height }),
        _ => None,
    }
}

/// The new pending value of one axis, for content that needs `need`.
pub open spec fn grow_axis(pending: u32, negotiated: u32, requested: u32, need: int) -> u32 {
    if pending < need && negotiated < need && requested < need {
        need as u32
    } else {
        pending
    }
}

/// What content of length `content` needs with `padding` added, held to
/// the largest `u32`.
pub open spec fn padded(content: u32, padding: u32) -> int {
    if content + padding <= u32::MAX {
        content + padding
    } else {
        u32::MAX as int
    }
}

fn padded_len(content: u32, padding: u32) -> (r: u32)
    ensures
        r == padded(content, padding),
{
    if content <= u32::MAX - padding {
        content + padding
    } else {
        u32::MAX
    }
}

/// Raises the pending target size on each axis where the content, plus the
/// padding, needs more than the pending, the negotiated and the in-flight
/// requested sizes all give; the other axes keep their pending value.
pub fn raise_pending(
    pending: SurfaceSize,
    negotiated: SurfaceSize,
    requested: SurfaceSize,
    content: SurfaceSize,
    padding: u32,
) -> (r: SurfaceSize)
    ensures
        r.width == grow_axis(
            pending.width,
            negotiated.width,
            requested.width,
            padded(content.width, padding),
        ),
        r.height == grow_axis(
            pending.height,
            negotiated.height,
            requested.height,
            padded(content.height, padding),
        ),
        r.width >= pending.width,
        r.height >= pending.height,
{
    let need_w = padded_len(content.width, padding);
    let need_h = padded_len(content.height, padding);
    let width = if pending.width < need_w && negotiated.width < need_w && requested.width < need_w {
        need_w
    } else {
        pending.width
    };
    let height = if pending.height < need_h && negotiated.height < need_h && requested.height
        < need_h {
        need_h
    } else {
        pending.height
    };
    SurfaceSize { width, height }
}

/// Growth is raised at most once: applying the same or a smaller need again
/// to the raised pending size leaves it where it is.
pub proof fn lemma_growth_raises_once(
    pending: u32,
    negotiated: u32,
    requested: u32,
    need: int,
    later: int,
)
    requires
        0 <= need <= u32::MAX,
        later <= need,
    ensures
        grow_axis(grow_axis(pending, negotiated, requested, need), negotiated, requested, later)
            == grow_axis(pending, negotiated, requested, need),
        grow_axis(pending, negotiated, requested, need) >= pending,
{
}

/// Which output a panel instance wants.
#[derive(Debug, Clone)]
pub enum OutputSelector {
    /// The output that the host picks.
    Active,
    /// The output of this name.
    Name(String),
}

/// A host output paired with the embedded server's output object, with
/// what the host says of it.
#[derive(Debug, Clone)]
pub struct OutputBinding {
    pub host: u64,
    pub embedded: u64,
    pub name: Option<String>,
    pub x: i32,
    pub y: i32,
    pub width: i32,
    pub height: i32,
}

/// The name of an output's description, if it has one.
pub open spec fn binding_name(b: OutputBinding) -> Option<Seq<char>> {
    match b.name {
        Some(n) => Some(n@),
        None => None,
    }
}

/// Whether an offered output satisfies `sel`. With no output offered the
/// host picks the active one.
pub open spec fn selector_matches(sel: OutputSelector, output: Option<OutputBinding>) -> bool {
    match sel {
        OutputSelector::Active => output is None,
        OutputSelector::Name(n) => output matches Some(b) && binding_name(b) == Some(n@),
    }
}

/// The output offered, by value.
pub open spec fn offered(output: Option<&OutputBinding>) -> Option<OutputBinding> {
    match output {
        Some(o) => Some(*o),
        None => None,
    }
}

/// How the anchored surface takes keyboard focus.
#[derive(Debug, Clone, Copy, PartialEq, Eq, Structural)]
pub enum KeyboardInteractivity {
    NoKeyboard,
    Exclusive,
    OnDemand,
}

/// The stacking layer of the anchored surface.
#[derive(Debug, Clone, Copy, PartialEq, Eq, Structural)]
pub enum Layer {
    Background,
    Bottom,
    Top,
    Overlay,
}

/// The layer that a protocol layer value names, if it is valid.
pub open spec fn layer_of(v: u32) -> Option<Layer> {
    if v == 0 {
        Some(Layer::Background)
    } else if v == 1 {
        Some(Layer::Bottom)
    } else if v == 2 {
        Some(Layer::Top)
    } else if v == 3 {
        Some(Layer::Overlay)
    } else {
        None
    }
}

/// The screen edge that the panel hugs.
#[derive(Debug, Clone, Copy, PartialEq, Eq, Structural)]
pub enum PanelAnchor {
    Left,
    Right,
    Top,
    Bottom,
}

/// The edges that a surface is anchored to.
#[derive(Debug, Clone, Copy, PartialEq, Eq, Structural)]
pub struct Edges {
    pub top: bool,
    pub bottom: bool,
    pub left: bool,
    pub right: bool,
}

/// All edges but the one opposite the panel's anchor.
pub open spec fn anchor_edges(a: PanelAnchor) -> Edges {
    Edges {
        top: a != PanelAnchor::Bottom,
        bottom: a != PanelAnchor::Top,
        left: a != PanelAnchor::Right,
        right: a != PanelAnchor::Left,
    }
}

/// What a panel instance asks of its anchored surface.
#[derive(Debug, Clone)]
pub struct PanelSettings {
    pub output: OutputSelector,
    pub layer: u32,
    pub anchor: PanelAnchor,
    pub min_size: SurfaceSize,
    pub expand_to_edges: bool,
    pub keyboard: KeyboardInteractivity,
}

/// Why an anchored surface could not be set up.
#[derive(Debug, Clone, Copy, PartialEq, Eq, Structural)]
pub enum BindError {
    AlreadyBound,
    OutputMismatch,
    InvalidLayer,
}

/// What to create on the host for a newly bound anchored surface.
#[derive(Debug, Clone, Copy, PartialEq, Eq, Structural)]
pub struct BindPlan {
    pub state: LayerState,
    pub layer: Layer,
    pub anchor: Edges,
    pub size: SurfaceSize,
    /// The surface takes input only where the content later says.
    pub empty_input_region: bool,
    pub keyboard: KeyboardInteractivity,
}

/// A size held to a minimum that is itself at least 1x1.
pub open spec fn constrained(s: SurfaceSize, min: SurfaceSize) -> SurfaceSize {
    SurfaceSize {
        width: vstd::math::max(
            s.width as int,
            vstd::math::max(min.width as int, 1),
        ) as u32,
        height: vstd::math::max(
            s.height as int,
            vstd::math::max(min.height as int, 1),
        ) as u32,
    }
}

/// Holds a requested size to the configured minimum, and to 1x1.
pub fn constrain_size(s: SurfaceSize, min: SurfaceSize) -> (r: SurfaceSize)
    ensures
        r == constrained(s, min),
{
    let mw = if min.width > 1 {
        min.width
    } else {
        1
    };
    let mh = if min.height > 1 {
        min.height
    } else {
        1
    };
    SurfaceSize {
        width: if s.width > mw {
            s.width
        } else {
            mw
        },
        height: if s.height > mh {
            s.height
        } else {
            mh
        },
    }
}

/// The outcome of binding the anchored surface, in state `s`, to an output.
pub open spec fn bind_result(s: LayerState, settings: PanelSettings, output: Option<OutputBinding>) -> Result<
    BindPlan,
    BindError,
> {
    if !(s is Unbound) {
        Err(BindError::AlreadyBound)
    } else if !selector_matches(settings.output, output) {
        Err(BindError::OutputMismatch)
    } else if layer_of(settings.layer) is None {
        Err(BindError::InvalidLayer)
    } else {
        let size = constrained(SurfaceSize { width: 0, height: 0 }, settings.min_size);
        Ok(
            BindPlan {
                state: LayerState::WaitConfigure {
                    first: true,
                    width: size.width,
                    height: size.height,
                },
                layer: layer_of(settings.layer)->Some_0,
                anchor: anchor_edges(settings.anchor),
                size,
                empty_input_region: !settings.expand_to_edges,
                keyboard: settings.keyboard,
            },
        )
    }
}

/// Binds the anchored surface to an output: the one offered, or, with
/// `None`, the one that the host picks.
pub fn bind_output(s: LayerState, settings: &PanelSettings, output: Option<&OutputBinding>) -> (r: Result<
    BindPlan,
    BindError,
>)
    ensures
        r == bind_result(s, *settings, offered(output)),
{
    if !matches!(s, LayerState::Unbound) {
        return Err(BindError::AlreadyBound);
    }
    let matches_output = match (&settings.output, output) {
        (OutputSelector::Active, None) => true,
        (OutputSelector::Name(n), Some(o)) => match &o.name {
            Some(name) => *n == *name,
            None => false,
        },
        _ => false,
    };
    if !matches_output {
        return Err(BindError::OutputMismatch);
    }
    let layer = if settings.layer == 0 {
        Layer::Background
    } else if settings.layer == 1 {
        Layer::Bottom
    } else if settings.layer == 2 {
        Layer::Top
    } else if settings.layer == 3 {
        Layer::Overlay
    } else {
        return Err(BindError::InvalidLayer);
    };
    let size = constrain_size(SurfaceSize { width: 0, height: 0 }, settings.min_size);
    let anchor = Edges {
        top: !matches!(settings.anchor, PanelAnchor::Bottom),
        bottom: !matches!(settings.anchor, PanelAnchor::Top),
        left: !matches!(settings.anchor, PanelAnchor::Right),
        right: !matches!(settings.anchor, PanelAnchor::Left),
    };
    Ok(
        BindPlan {
            state: LayerState::WaitConfigure {
                first: true,
                width: size.width,
                height: size.height,
            },
            layer,
            anchor,
            size,
            empty_input_region: !settings.expand_to_edges,
            keyboard: settings.keyboard,
        },
    )
}

/// How the surface is to be scaled after a scale change. The scale is given
/// in 120ths, as the fractional scaling protocol counts it.
#[derive(Debug, Clone, Copy, PartialEq, Eq, Structural)]
pub struct ScaleUpdate {
    pub buffer_scale: u32,
    pub viewport_destination: Option<SurfaceSize>,
}

/// Whether a scale change is applied through the integer buffer scale.
pub open spec fn uses_buffer_scale(legacy: bool, has_fractional: bool) -> bool {
    legacy && !has_fractional
}

/// How a scale change of `scale120` 120ths is applied to a surface of size `actual`.
pub open spec fn scale_plan(
    legacy: bool,
    has_fractional: bool,
    has_viewport: bool,
    scale120: u32,
    actual: SurfaceSize,
) -> ScaleUpdate {
    if uses_buffer_scale(legacy, has_fractional) {
        ScaleUpdate { buffer_scale: scale120 / 120, viewport_destination: None }
    } else {
        ScaleUpdate {
            buffer_scale: 1,
            viewport_destination: if has_viewport {
                Some(constrained(actual, SurfaceSize { width: 1, height: 1 }))
            } else {
                None
            },
        }
    }
}

/// Chooses between the integer buffer scale and a viewport destination.
pub fn scale_update(
    legacy: bool,
    has_fractional: bool,
    has_viewport: bool,
    scale120: u32,
    actual: SurfaceSize,
) -> (r: ScaleUpdate)
    ensures
        r == scale_plan(legacy, has_fractional, has_viewport, scale120, actual),
{
    if legacy && !has_fractional {
        ScaleUpdate { buffer_scale: scale120 / 120, viewport_destination: None }
    } else {
        let dest = if has_viewport {
            Some(constrain_size(actual, SurfaceSize { width: 1, height: 1 }))
        } else {
            None
        };
        ScaleUpdate { buffer_scale: 1, viewport_destination: dest }
    }
}

} // verus!
