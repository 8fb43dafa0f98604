//! One panel instance: its anchored surface, its popup, the applet surfaces
//! laid out in it, and the per-seat routing of pointer and keyboard focus.
use crate::geometry::{Point, Rect, clamp_i32, clamp_to_i32, contains_point, rect_contains};
use crate::layer::{
    BindError,
    BindPlan,
    LayerEvent,
    LayerState,
    PanelSettings,
    ScaleUpdate,
    SurfaceSize,
    apply_layer_event,
    bind_output,
    bind_result,
    constrain_size,
    constrained,
    OutputBinding,
    configure_layer,
    layer_step,
    scale_plan,
    scale_update,
};
use crate::popup::{
    PopupEntry,
    PopupError,
    Positioner,
    Request,
    close_popups,
    creation_requests,
    dirty_popup,
    fresh_popup,
    host_positioner,
    list_view,
    popup_dirty,
    popup_raise,
    raise_popup,
    teardown,
};
use crate::seat_table::SeatTable;
use vstd::prelude::*;

verus! {

/// An applet surface laid out in the panel.
#[derive(Debug, Clone, Copy, PartialEq, Eq, Structural)]
pub struct Element {
    pub surface: u64,
    /// Where the element is placed in the panel's embedded space.
    pub loc: Point,
    /// Its bounding box in the embedded space.
    pub bbox: Rect,
}

/// What a seat's pointer is over.
#[derive(Debug, Clone, Copy, PartialEq, Eq, Structural)]
pub struct PointerFocus {
    /// The embedded surface under the pointer.
    pub surface: u64,
    /// Position in host-local coordinates.
    pub host_pos: Point,
    /// Position in embedded-local coordinates.
    pub embedded_pos: Point,
}

/// The index of the topmost element whose bounding box holds `p`.
pub open spec fn top_hit(es: Seq<Element>, p: Point) -> Option<int>
    decreases es.len(),
{
    if es.len() == 0 {
        None
    } else if rect_contains(es.last().bbox, p) {
        Some(es.len() - 1)
    } else {
        top_hit(es.drop_last(), p)
    }
}

proof fn lemma_top_hit_in_range(es: Seq<Element>, p: Point)
    ensures
        top_hit(es, p) matches Some(i) ==> 0 <= i < es.len() && rect_contains(es[i].bbox, p),
    decreases es.len(),
{
    if es.len() > 0 && !rect_contains(es.last().bbox, p) {
        lemma_top_hit_in_range(es.drop_last(), p);
    }
}

/// `n / d` rounded to the nearest integer, halves upward.
pub open spec fn div_round(n: int, d: int) -> int {
    (2 * n + d) / (2 * d)
}

/// An embedded coordinate in host-local coordinates, for a scale in 120ths.
pub open spec fn to_host(v: i32, scale120: u32) -> i32 {
    clamp_i32(div_round(v * 120, scale120 as int))
}

fn scale_coord(v: i32, scale120: u32) -> (r: i32)
    requires
        scale120 > 0,
    ensures
        r == to_host(v, scale120),
{
    let n = v as i64 * 120;
    let d = scale120 as i64;
    let q = match (2 * n + d).checked_div_euclid(2 * d) {
        Some(q) => q,
        None => 0,
    };
    proof {
        let num = 2 * n + d;
        assert(0 <= num / (2 * d) || num < 0);
        if num >= 0 {
            assert(num / (2 * d) <= num) by (nonlinear_arith)
                requires
                    num >= 0,
                    2 * d >= 2,
            ;
        } else {
            assert(num / (2 * d) >= num) by (nonlinear_arith)
                requires
                    num < 0,
                    2 * d >= 2,
            ;
            assert(num / (2 * d) <= 0) by (nonlinear_arith)
                requires
                    num < 0,
                    2 * d >= 2,
            ;
        }
    }
    clamp_to_i32(q)
}

/// The pointer focus on a popup: at the popup's origin, less the origin of
/// the applet's own geometry for it.
pub open spec fn popup_focus(p: PopupEntry) -> PointerFocus {
    PointerFocus {
        surface: p.embedded,
        host_pos: Point { x: p.rect.x, y: p.rect.y },
        embedded_pos: Point {
            x: clamp_i32(p.rect.x - p.geometry.x),
            y: clamp_i32(p.rect.y - p.geometry.y),
        },
    }
}

/// The pointer focus on an element: its bounding box's origin in host
/// coordinates, and its place in the embedded space.
pub open spec fn element_focus(e: Element, scale120: u32) -> PointerFocus {
    PointerFocus {
        surface: e.surface,
        host_pos: Point { x: to_host(e.bbox.x, scale120), y: to_host(e.bbox.y, scale120) },
        embedded_pos: e.loc,
    }
}

/// One panel instance.
pub struct PanelSpace {
    pub layer: LayerState,
    /// The host surface of the anchored surface, once bound.
    pub layer_surface: Option<u64>,
    pub popup: Option<PopupEntry>,
    /// Applet surfaces, bottom to top.
    pub elements: Vec<Element>,
    /// Per seat, the host surface of this panel that the pointer is over.
    pub host_hover: SeatTable<u64>,
    /// Per seat, the embedded surface that the pointer is over.
    pub hover: SeatTable<PointerFocus>,
    /// Per seat, the embedded surface that has keyboard focus.
    pub focus: SeatTable<u64>,
    /// The scale factor, in 120ths.
    pub scale120: u32,
    /// The size the panel asks of the host.
    pub dimensions: SurfaceSize,
    /// The output the panel is bound to, where one was offered.
    pub output: Option<OutputBinding>,
    pub dirty: bool,
    pub last_dirty: Option<u64>,
    pub has_frame: bool,
}

impl PanelSpace {
    /// The panel's invariant.
    pub open spec fn wf(&self) -> bool {
        &&& self.host_hover.wf()
        &&& self.hover.wf()
        &&& self.focus.wf()
        &&& self.scale120 > 0
    }

    /// A panel not yet bound to an output, at the given scale (in 120ths).
    pub fn new(scale120: u32) -> (r: Self)
        requires
            scale120 > 0,
        ensures
            r.wf(),
            r.layer == LayerState::Unbound,
            r.layer_surface is None,
            r.popup is None,
            r.elements@.len() == 0,
            r.host_hover@ == Map::<Seq<char>, u64>::empty(),
            r.hover@ == Map::<Seq<char>, PointerFocus>::empty(),
            r.focus@ == Map::<Seq<char>, u64>::empty(),
            r.scale120 == scale120,
            r.output is None,
            !r.dirty,
    {
        PanelSpace {
            layer: LayerState::Unbound,
            layer_surface: None,
            popup: None,
            elements: Vec::new(),
            host_hover: SeatTable::new(),
            hover: SeatTable::new(),
            focus: SeatTable::new(),
            scale120,
            dimensions: SurfaceSize { width: 1, height: 1 },
            output: None,
            dirty: false,
            last_dirty: None,
            has_frame: false,
        }
    }

    /// Binds the panel to an output and records the host surface created for
    /// it. On failure nothing changes.
    pub fn new_output(
        &mut self,
        settings: &PanelSettings,
        output: Option<OutputBinding>,
        surface: u64,
    ) -> (r: Result<BindPlan, BindError>)
        requires
            old(self).wf(),
        ensures
            final(self).wf(),
            r == bind_result(old(self).layer, *settings, output),
            r matches Ok(plan) ==> *final(self) == (PanelSpace {
                layer: plan.state,
                layer_surface: Some(surface),
                dimensions: plan.size,
                output,
                dirty: true,
                ..*old(self)
            }),
            r is Err ==> *final(self) == *old(self),
    {
        let offer = match &output {
            Some(b) => Some(b),
            None => None,
        };
        let r = bind_output(self.layer, settings, offer);
        if let Ok(plan) = &r {
            self.layer = plan.state;
            self.dimensions = plan.size;
            self.layer_surface = Some(surface);
            self.output = output;
            self.dirty = true;
        }
        r
    }

    /// Applies a host event about the anchored surface; returns the serial to
    /// acknowledge, if the event was a configure that was honoured.
    pub fn handle_layer_event(&mut self, e: LayerEvent) -> (r: Option<u32>)
        requires
            old(self).wf(),
        ensures
            final(self).wf(),
            final(self).layer == layer_step(old(self).layer, e),
            r == (match e {
                LayerEvent::Configure { serial, .. } => if old(self).layer is WaitConfigure || old(self).layer is Configured {
                    Some(serial)
                } else {
                    None
                },
                LayerEvent::Closed => None,
            }),
            final(self).popup == old(self).popup,
    {
        match e {
            LayerEvent::Configure { width, height, serial } => {
                let (s, ack) = configure_layer(self.layer, width, height, serial);
                self.layer = s;
                ack
            },
            LayerEvent::Closed => {
                self.layer = apply_layer_event(self.layer, e);
                None
            },
        }
    }

    /// The bound output is gone for good: the anchored surface quits, and
    /// its popup, if any, is taken down.
    pub fn output_lost(&mut self) -> (r: Vec<Request>)
        requires
            old(self).wf(),
        ensures
            final(self).wf(),
            final(self).layer == LayerState::Quit,
            final(self).popup is None,
            r@ == match old(self).popup {
                Some(p) => teardown(p),
                None => Seq::<Request>::empty(),
            },
    {
        self.layer = LayerState::Quit;
        close_popups(&mut self.popup)
    }

    /// The bound output changed its description: the requested size is held
    /// again to the minimum, and the panel is redrawn.
    pub fn update_output(&mut self, min_size: SurfaceSize) -> (r: bool)
        requires
            old(self).wf(),
        ensures
            final(self).wf(),
            r,
            final(self).dimensions == constrained(old(self).dimensions, min_size),
            final(self).dirty,
            final(self).layer == old(self).layer,
            final(self).popup == old(self).popup,
    {
        self.dimensions = constrain_size(self.dimensions, min_size);
        self.dirty = true;
        true
    }

    /// Lays out a new applet surface on top of the others.
    pub fn add_window(&mut self, surface: u64, loc: Point, bbox: Rect)
        requires
            old(self).wf(),
        ensures
            final(self).wf(),
            final(self).elements@ == old(self).elements@.push(Element { surface, loc, bbox }),
            final(self).dirty,
    {
        self.dirty = true;
        self.elements.push(Element { surface, loc, bbox });
    }

    /// An applet committed to one of its surfaces at time `now`.
    pub fn dirty_window(&mut self, now: u64)
        ensures
            final(self).dirty,
            final(self).last_dirty == Some(now),
            final(self).elements == old(self).elements,
            final(self).popup == old(self).popup,
    {
        self.dirty = true;
        self.last_dirty = Some(now);
    }

    /// The host signalled a frame for surface `surface`.
    pub fn frame(&mut self, surface: u64)
        requires
            old(self).wf(),
        ensures
            final(self).wf(),
            old(self).layer_surface == Some(surface) ==> final(self).has_frame && final(self).popup
                == old(self).popup,
            old(self).layer_surface != Some(surface) ==> final(self).has_frame == old(self).has_frame && final(self).popup == match old(self).popup {
                Some(p) => if p.host == surface {
                    Some(PopupEntry { has_frame: true, ..p })
                } else {
                    Some(p)
                },
                None => None,
            },
    {
        if self.layer_surface == Some(surface) {
            self.has_frame = true;
        } else if let Some(p) = &mut self.popup {
            if p.host == surface {
                p.has_frame = true;
            }
        }
    }

    fn element_under(&self, p: Point) -> (r: Option<usize>)
        ensures
            r matches Some(i) ==> Some(i as int) == top_hit(self.elements@, p),
            r is None ==> top_hit(self.elements@, p) is None,
    {
        let mut i: usize = self.elements.len();
        assert(self.elements@.take(i as int) =~= self.elements@);
        while i > 0
            invariant
                i <= self.elements@.len(),
                top_hit(self.elements@, p) == top_hit(self.elements@.take(i as int), p),
            decreases i,
        {
            let ghost pre = self.elements@.take(i as int);
            assert(pre.drop_last() =~= self.elements@.take(i - 1));
            assert(pre.last() == self.elements@[i - 1]);
            i = i - 1;
            if contains_point(self.elements[i].bbox, p) {
                return Some(i);
            }
        }
        None
    }

    /// The pointer of `seat` moved to `(x, y)` on host surface `surface`.
    /// On this panel's popup, the popup's surface is hovered and focused; on
    /// the anchored surface, the topmost applet surface under the point is;
    /// anywhere else, or over no applet surface, the seat's hover is dropped.
    pub fn update_pointer(&mut self, x: i32, y: i32, seat: &String, surface: u64) -> (r: Option<
        PointerFocus,
    >)
        requires
            old(self).wf(),
        ensures
            final(self).wf(),
            final(self).popup == old(self).popup,
            final(self).elements == old(self).elements,
            final(self).scale120 == old(self).scale120,
            final(self).layer == old(self).layer,
            final(self).layer_surface == old(self).layer_surface,
            final(self).dimensions == old(self).dimensions,
            final(self).dirty == old(self).dirty,
            r matches Some(f) ==> final(self).hover@ == old(self).hover@.insert(seat@, f)
                && final(self).focus@ == old(self).focus@.insert(seat@, f.surface)
                && final(self).host_hover@ == old(self).host_hover@.insert(seat@, surface),
            r is None ==> final(self).hover@ == old(self).hover@.remove(seat@) && final(self).focus@ == old(self).focus@,
            r is None ==> !final(self).hover@.contains_key(seat@),
            shows_host_popup(old(self).popup, surface) ==> r == Some(
                popup_focus(old(self).popup->Some_0),
            ),
            !shows_host_popup(old(self).popup, surface) && old(self).layer_surface == Some(surface)
                ==> r == match top_hit(old(self).elements@, Point { x, y }) {
                Some(i) => Some(element_focus(old(self).elements@[i], old(self).scale120)),
                None => None,
            } && final(self).host_hover@ == old(self).host_hover@.insert(seat@, surface),
            !shows_host_popup(old(self).popup, surface) && old(self).layer_surface != Some(surface)
                ==> r is None && final(self).host_hover@ == old(self).host_hover@.remove(seat@),
    {
        if let Some(p) = &self.popup {
            if p.host == surface {
                let f = PointerFocus {
                    surface: p.embedded,
                    host_pos: Point { x: p.rect.x, y: p.rect.y },
                    embedded_pos: Point {
                        x: clamp_to_i32(p.rect.x as i64 - p.geometry.x as i64),
                        y: clamp_to_i32(p.rect.y as i64 - p.geometry.y as i64),
                    },
                };
                self.focus.insert(seat, p.embedded);
                self.hover.insert(seat, f);
                self.host_hover.insert(seat, surface);
                return Some(f);
            }
        }
        if self.layer_surface != Some(surface) {
            self.hover.remove(seat);
            self.host_hover.remove(seat);
            return None;
        }
        self.host_hover.insert(seat, surface);
        let pt = Point { x, y };
        match self.element_under(pt) {
            Some(i) => {
                proof {
                    lemma_top_hit_in_range(self.elements@, pt);
                }
                let e = self.elements[i];
                let f = PointerFocus {
                    surface: e.surface,
                    host_pos: Point {
                        x: scale_coord(e.bbox.x, self.scale120),
                        y: scale_coord(e.bbox.y, self.scale120),
                    },
                    embedded_pos: e.loc,
                };
                self.focus.insert(seat, e.surface);
                self.hover.insert(seat, f);
                Some(f)
            },
            None => {
                self.hover.remove(seat);
                None
            },
        }
    }

    /// The pointer of `seat` entered host surface `surface` at `(x, y)`.
    pub fn pointer_enter(&mut self, x: i32, y: i32, seat: &String, surface: u64) -> (r: Option<
        PointerFocus,
    >)
        requires
            old(self).wf(),
        ensures
            final(self).wf(),
            final(self).popup == old(self).popup,
            final(self).elements == old(self).elements,
            final(self).scale120 == old(self).scale120,
            final(self).layer == old(self).layer,
            final(self).layer_surface == old(self).layer_surface,
            final(self).dimensions == old(self).dimensions,
            final(self).dirty == old(self).dirty,
            r matches Some(f) ==> final(self).hover@ == old(self).hover@.insert(seat@, f)
                && final(self).focus@ == old(self).focus@.insert(seat@, f.surface)
                && final(self).host_hover@ == old(self).host_hover@.insert(seat@, surface),
            r is None ==> final(self).hover@ == old(self).hover@.remove(seat@) && final(self).focus@ == old(self).focus@,
            r is None ==> !final(self).hover@.contains_key(seat@),
            shows_host_popup(old(self).popup, surface) ==> r == Some(
                popup_focus(old(self).popup->Some_0),
            ),
            !shows_host_popup(old(self).popup, surface) && old(self).layer_surface == Some(surface)
                ==> r == match top_hit(old(self).elements@, Point { x, y }) {
                Some(i) => Some(element_focus(old(self).elements@[i], old(self).scale120)),
                None => None,
            } && final(self).host_hover@ == old(self).host_hover@.insert(seat@, surface),
            !shows_host_popup(old(self).popup, surface) && old(self).layer_surface != Some(surface)
                ==> r is None && final(self).host_hover@ == old(self).host_hover@.remove(seat@),
    {
        self.update_pointer(x, y, seat, surface)
    }

    /// The pointer of `seat` left this panel's surfaces.
    pub fn pointer_leave(&mut self, seat: &String)
        requires
            old(self).wf(),
        ensures
            final(self).wf(),
            final(self).hover@ == old(self).hover@.remove(seat@),
            final(self).host_hover@ == old(self).host_hover@.remove(seat@),
            final(self).focus@ == old(self).focus@,
            final(self).popup == old(self).popup,
    {
        self.hover.remove(seat);
        self.host_hover.remove(seat);
    }

    /// `seat` lost keyboard focus. Where it had focus on an applet surface,
    /// the open popup, if any, is taken down before this returns.
    pub fn keyboard_leave(&mut self, seat: &String) -> (r: Vec<Request>)
        requires
            old(self).wf(),
        ensures
            final(self).wf(),
            final(self).focus@ == old(self).focus@.remove(seat@),
            final(self).hover@ == old(self).hover@,
            final(self).host_hover@ == old(self).host_hover@,
            old(self).focus@.contains_key(seat@) ==> final(self).popup is None && r@ == match old(self).popup {
                Some(p) => teardown(p),
                None => Seq::<Request>::empty(),
            },
            !old(self).focus@.contains_key(seat@) ==> final(self).popup == old(self).popup && r@
                == Seq::<Request>::empty(),
    {
        if self.focus.remove(seat) {
            close_popups(&mut self.popup)
        } else {
            Vec::new()
        }
    }

    /// A button of `seat` was pressed. Returns the embedded surface that the
    /// press goes to, if any, and the requests. A press on the anchored
    /// surface takes down the open popup; a press with no hover on this panel
    /// is a keyboard leave of the seat and goes nowhere.
    pub fn handle_press(&mut self, seat: &String) -> (r: (Option<u64>, Vec<Request>))
        requires
            old(self).wf(),
        ensures
            final(self).wf(),
            final(self).hover@ == old(self).hover@,
            old(self).host_hover@.contains_key(seat@) ==> ({
                let on_layer = old(self).layer_surface == Some(old(self).host_hover@[seat@]);
                &&& r.0 == if old(self).hover@.contains_key(seat@) {
                    Some(old(self).hover@[seat@].surface)
                } else {
                    None
                }
                &&& final(self).focus@ == old(self).focus@
                &&& on_layer && old(self).popup is Some ==> final(self).popup is None && r.1@
                    == teardown(old(self).popup->Some_0)
                &&& !(on_layer && old(self).popup is Some) ==> final(self).popup == old(self).popup
                    && r.1@ == Seq::<Request>::empty()
            }),
            !old(self).host_hover@.contains_key(seat@) ==> ({
                &&& r.0 is None
                &&& final(self).focus@ == old(self).focus@.remove(seat@)
                &&& old(self).focus@.contains_key(seat@) ==> final(self).popup is None && r.1@
                    == match old(self).popup {
                    Some(p) => teardown(p),
                    None => Seq::<Request>::empty(),
                }
                &&& !old(self).focus@.contains_key(seat@) ==> final(self).popup == old(self).popup
                    && r.1@ == Seq::<Request>::empty()
            }),
    {
        match self.host_hover.get(seat) {
            Some(host) => {
                let reqs = if self.layer_surface == Some(host) && self.popup.is_some() {
                    close_popups(&mut self.popup)
                } else {
                    Vec::new()
                };
                let target = match self.hover.get(seat) {
                    Some(f) => Some(f.surface),
                    None => None,
                };
                (target, reqs)
            },
            None => {
                let reqs = self.keyboard_leave(seat);
                (None, reqs)
            },
        }
    }

    /// The embedded surface that `seat`'s pointer is over, if any.
    pub fn hovered(&self, seat: &String) -> (r: Option<PointerFocus>)
        requires
            self.wf(),
        ensures
            r == (if self.hover@.contains_key(seat@) {
                Some(self.hover@[seat@])
            } else {
                None
            }),
    {
        self.hover.get(seat)
    }

    /// The embedded surface that has `seat`'s keyboard focus, if any.
    pub fn focused(&self, seat: &String) -> (r: Option<u64>)
        requires
            self.wf(),
        ensures
            r == (if self.focus@.contains_key(seat@) {
                Some(self.focus@[seat@])
            } else {
                None
            }),
    {
        self.focus.get(seat)
    }

    /// The scale factor of host surface `surface` changed to `scale120`
    /// 120ths. For the anchored surface the panel takes the new scale and
    /// says how to apply it; a popup on that surface takes the new scale
    /// and is marked for redraw. Nothing else changes.
    pub fn scale_factor_changed(
        &mut self,
        surface: u64,
        scale120: u32,
        legacy: bool,
        has_fractional: bool,
        has_viewport: bool,
        actual: SurfaceSize,
    ) -> (r: Option<ScaleUpdate>)
        requires
            old(self).wf(),
            scale120 > 0,
        ensures
            final(self).wf(),
            final(self).popup == scaled_popup(old(self).popup, surface, scale120),
            old(self).layer_surface == Some(surface) ==> r == Some(
                scale_plan(legacy, has_fractional, has_viewport, scale120, actual),
            ) && *final(self) == (PanelSpace {
                scale120,
                dirty: true,
                popup: final(self).popup,
                ..*old(self)
            }),
            old(self).layer_surface != Some(surface) ==> r is None && *final(self) == (PanelSpace {
                popup: final(self).popup,
                ..*old(self)
            }),
    {
        let r = if self.layer_surface == Some(surface) {
            self.scale120 = scale120;
            self.dirty = true;
            Some(scale_update(legacy, has_fractional, has_viewport, scale120, actual))
        } else {
            None
        };
        if let Some(p) = &mut self.popup {
            if p.host == surface {
                p.scale120 = scale120;
                p.dirty = true;
            }
        }
        r
    }

    /// Raises a popup for the applet surface `embedded`, shown on the host as
    /// surface `host` and attached to the panel's anchored surface. A panel
    /// not yet bound refuses and stays as it is.
    pub fn add_popup(
        &mut self,
        embedded: u64,
        host: u64,
        positioner: Positioner,
        geometry: Rect,
        input: Option<&Vec<Rect>>,
        parent_loc: Point,
    ) -> (r: Result<(Positioner, Vec<Request>), PopupError>)
        requires
            old(self).wf(),
        ensures
            final(self).wf(),
            old(self).layer_surface is None ==> r == Err::<(Positioner, Vec<Request>), PopupError>(
                PopupError::NoPanelSurface,
            ) && *final(self) == *old(self),
            old(self).layer_surface is Some ==> (r matches Ok(ok) && {
                let parent = old(self).layer_surface->Some_0;
                &&& ok.0 == host_positioner(positioner, parent_loc)
                &&& (final(self).popup, ok.1@) == popup_raise(
                    old(self).popup,
                    fresh_popup(embedded, host, positioner, geometry, old(self).scale120),
                    creation_requests(host, parent, geometry, list_view(input)),
                )
                &&& *final(self) == (PanelSpace { popup: final(self).popup, ..*old(self) })
            }),
    {
        match self.layer_surface {
            None => Err(PopupError::NoPanelSurface),
            Some(parent) => Ok(
                raise_popup(
                    &mut self.popup,
                    embedded,
                    host,
                    parent,
                    positioner,
                    geometry,
                    input,
                    parent_loc,
                    self.scale120,
                ),
            ),
        }
    }

    /// The applet committed new content to its popup surface `embedded`:
    /// the popup is updated as `popup_dirty` says and the panel is marked
    /// for redraw.
    pub fn dirty_popup(
        &mut self,
        embedded: u64,
        bbox: Rect,
        geometry: Rect,
        input: Option<&Vec<Rect>>,
    ) -> (r: Vec<Request>)
        requires
            old(self).wf(),
        ensures
            final(self).wf(),
            (final(self).popup, r@) == popup_dirty(
                old(self).popup,
                embedded,
                bbox,
                geometry,
                list_view(input),
            ),
            *final(self) == (PanelSpace { popup: final(self).popup, dirty: true, ..*old(self) }),
    {
        self.dirty = true;
        dirty_popup(&mut self.popup, embedded, bbox, geometry, input)
    }
}

/// The popup after a scale change of host surface `surface`.
pub open spec fn scaled_popup(popup: Option<PopupEntry>, surface: u64, scale120: u32) -> Option<PopupEntry> {
    match popup {
        Some(p) => if p.host == surface {
            Some(PopupEntry { scale120, dirty: true, ..p })
        } else {
            Some(p)
        },
        None => None,
    }
}

/// Whether the open popup, if any, is shown on host surface `surface`.
pub open spec fn shows_host_popup(popup: Option<PopupEntry>, surface: u64) -> bool {
    popup matches Some(p) && p.host == surface
}

} // verus!
