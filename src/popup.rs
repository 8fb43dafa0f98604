//! The popup that an applet raises, relayed to the host as a child of the
//! panel's anchored surface. A panel holds at most one popup at a time.
use crate::geometry::{Point, Rect, at_least_one, clamp_i32, clamp_to_i32, clamp_to_one};
use vstd::prelude::*;

verus! {

/// Where a popup wants to appear relative to its parent.
#[derive(Debug, Clone, Copy, PartialEq, Eq)]
pub struct Positioner {
    pub width: i32,
    pub height: i32,
    pub anchor_rect: Rect,
    pub anchor_edges: u32,
    pub gravity: u32,
    pub constraint_adjustment: u32,
    pub offset: Point,
    pub reactive: bool,
    pub parent_size: Option<(i32, i32)>,
}

/// The positioner in host coordinates: the anchor rectangle moved by the
/// position of the parent embedded surface (held to the range of `i32`),
/// all else as it was.
pub open spec fn host_positioner(p: Positioner, parent: Point) -> Positioner {
    Positioner {
        anchor_rect: Rect {
            x: clamp_i32(p.anchor_rect.x + parent.x),
            y: clamp_i32(p.anchor_rect.y + parent.y),
            ..p.anchor_rect
        },
        ..p
    }
}

fn to_host_positioner(p: Positioner, parent: Point) -> (r: Positioner)
    ensures
        r == host_positioner(p, parent),
{
    let mut anchor = p.anchor_rect;
    anchor.x = clamp_to_i32(p.anchor_rect.x as i64 + parent.x as i64);
    anchor.y = clamp_to_i32(p.anchor_rect.y as i64 + parent.y as i64);
    Positioner { anchor_rect: anchor, ..p }
}

/// Where a popup stands in its negotiation with the host.
#[derive(Debug, Clone, Copy, PartialEq, Eq, Structural)]
pub enum PopupState {
    WaitConfigure { first: bool },
    Configured { first: bool, x: i32, y: i32, width: i32, height: i32 },
}

/// An open popup.
#[derive(Debug, Clone, Copy, PartialEq, Eq)]
pub struct PopupEntry {
    /// The applet's popup surface.
    pub embedded: u64,
    /// The surface that stands for it on the host.
    pub host: u64,
    /// Its rectangle in embedded coordinates.
    pub rect: Rect,
    /// The applet's window geometry for it.
    pub geometry: Rect,
    pub state: PopupState,
    pub positioner: Positioner,
    pub has_frame: bool,
    pub dirty: bool,
    /// The scale of its host surface, in 120ths.
    pub scale120: u32,
    /// The geometry offered to the applet with its next configure.
    pub pending: Rect,
}

/// A request that the panel sends to the host or to an applet.
#[derive(Debug, Clone, Copy, PartialEq, Eq)]
pub enum Request {
    HostGetPopup { parent: u64, host: u64 },
    HostDestroyPopup { host: u64 },
    HostAckConfigure { host: u64, serial: u32 },
    HostReposition { host: u64, token: u32 },
    HostWindowGeometry { host: u64, rect: Rect },
    HostInputSubtract { host: u64, rect: Rect },
    HostInputAdd { host: u64, rect: Rect },
    EmbeddedConfigure { surface: u64, rect: Rect, reposition: Option<u32> },
    EmbeddedRepositioned { surface: u64, token: u32 },
    EmbeddedPopupDone { surface: u64 },
}

/// Whether the open popup, if any, is that of applet surface `embedded`.
pub open spec fn shows_embedded(slot: Option<PopupEntry>, embedded: u64) -> bool {
    slot matches Some(p) && p.embedded == embedded
}

/// Whether the open popup, if any, is shown on the host as surface `host`.
pub open spec fn shows_host(slot: Option<PopupEntry>, host: u64) -> bool {
    slot matches Some(p) && p.host == host
}

/// Why a popup request was refused.
#[derive(Debug, Clone, Copy, PartialEq, Eq, Structural)]
pub enum PopupError {
    UnknownPopup,
    RepositionUnsupported,
    NoPanelSurface,
}

/// The lowest host protocol version that can reposition a popup.
pub const REPOSITION_VERSION: u32 = 3;

/// A popup just raised, waiting for its first configure.
pub open spec fn fresh_popup(
    embedded: u64,
    host: u64,
    positioner: Positioner,
    geometry: Rect,
    scale120: u32,
) -> PopupEntry {
    PopupEntry {
        embedded,
        host,
        rect: Rect { x: 0, y: 0, width: positioner.width, height: positioner.height },
        geometry,
        state: PopupState::WaitConfigure { first: true },
        positioner,
        has_frame: true,
        dirty: false,
        scale120,
        pending: Rect { x: 0, y: 0, width: positioner.width, height: positioner.height },
    }
}

/// The requests that take down popup `p`: the applet learns it is done, and
/// its host surface is destroyed.
pub open spec fn teardown(p: PopupEntry) -> Seq<Request> {
    seq![Request::EmbeddedPopupDone { surface: p.embedded }, Request::HostDestroyPopup { host: p.host }]
}

/// The input rectangles of an applet, by their sizes, added to host surface `host`.
pub open spec fn input_adds(host: u64, input: Seq<Rect>) -> Seq<Request> {
    input.map_values(
        |r: Rect| Request::HostInputAdd { host, rect: Rect { x: 0, y: 0, width: r.width, height: r.height } },
    )
}

/// What a new popup's host surface learns at creation: where the applet
/// gave an input region, the window geometry and that region; then it is
/// attached as a popup of the panel's anchored surface `parent`.
pub open spec fn creation_requests(host: u64, parent: u64, geometry: Rect, input: Option<Seq<Rect>>) -> Seq<Request> {
    (match input {
        Some(v) => seq![Request::HostWindowGeometry { host, rect: at_least_one(geometry) }] + input_adds(host, v),
        None => seq![],
    }) + seq![Request::HostGetPopup { parent, host }]
}

/// The popup slot and the requests after raising `new`: a popup that was
/// open is superseded, its host surface destroyed, and it hears nothing
/// more; then the new popup's host surface gets `creation`.
pub open spec fn popup_raise(slot: Option<PopupEntry>, new: PopupEntry, creation: Seq<Request>) -> (Option<PopupEntry>, Seq<Request>) {
    match slot {
        Some(a) => (Some(new), seq![Request::HostDestroyPopup { host: a.host }] + creation),
        None => (Some(new), creation),
    }
}

/// The name of an optional list's contents.
pub open spec fn list_view(input: Option<&Vec<Rect>>) -> Option<Seq<Rect>> {
    match input {
        Some(v) => Some(v@),
        None => None,
    }
}

fn add_inputs(out: &mut Vec<Request>, host: u64, input: &Vec<Rect>)
    ensures
        final(out)@ == old(out)@ + input_adds(host, input@),
{
    let ghost start = out@;
    let mut i: usize = 0;
    while i < input.len()
        invariant
            i <= input@.len(),
            out@ == start + input_adds(host, input@.take(i as int)),
        decreases input@.len() - i,
    {
        let r = input[i];
        out.push(Request::HostInputAdd { host, rect: Rect { x: 0, y: 0, width: r.width, height: r.height } });
        i = i + 1;
        assert(input_adds(host, input@.take(i as int)) =~= input_adds(host, input@.take(i - 1)).push(
            out@.last(),
        ));
    }
    assert(input@.take(i as int) =~= input@);
}

/// The popup's state after a host configure.
pub open spec fn configured_state(s: PopupState, x: i32, y: i32, width: i32, height: i32) -> PopupState {
    PopupState::Configured {
        first: match s {
            PopupState::WaitConfigure { first } => first,
            PopupState::Configured { .. } => false,
        },
        x,
        y,
        width,
        height,
    }
}

/// The popup slot and the requests after a host configure of surface `host`.
/// A configure for a popup that is not open is ignored.
pub open spec fn popup_configure(
    slot: Option<PopupEntry>,
    host: u64,
    x: i32,
    y: i32,
    width: i32,
    height: i32,
    serial: u32,
    token: Option<u32>,
) -> (Option<PopupEntry>, Seq<Request>) {
    match slot {
        Some(p) => if p.host == host {
            let rect = Rect { x, y, width, height };
            (
                Some(
                    PopupEntry {
                        rect,
                        state: configured_state(p.state, x, y, width, height),
                        ..p
                    },
                ),
                seq![
                    Request::HostAckConfigure { host, serial },
                    Request::EmbeddedConfigure { surface: p.embedded, rect, reposition: token },
                ],
            )
        } else {
            (slot, seq![])
        },
        None => (slot, seq![]),
    }
}

/// Raises a popup for the applet surface `embedded`, shown on the host as
/// surface `host` and attached to the panel's anchored surface `parent`.
/// `parent_loc` is where the applet's parent surface sits in the panel.
/// Returns the positioner to hand the host, and the requests.
pub fn raise_popup(
    slot: &mut Option<PopupEntry>,
    embedded: u64,
    host: u64,
    parent: u64,
    positioner: Positioner,
    geometry: Rect,
    input: Option<&Vec<Rect>>,
    parent_loc: Point,
    scale120: u32,
) -> (r: (Positioner, Vec<Request>))
    ensures
        r.0 == host_positioner(positioner, parent_loc),
        (*final(slot), r.1@) == popup_raise(
            *old(slot),
            fresh_popup(embedded, host, positioner, geometry, scale120),
            creation_requests(host, parent, geometry, list_view(input)),
        ),
{
    let mut out: Vec<Request> = Vec::new();
    if let Some(a) = slot {
        out.push(Request::HostDestroyPopup { host: a.host });
    }
    let ghost evicted = out@;
    if let Some(v) = input {
        out.push(Request::HostWindowGeometry { host, rect: clamp_to_one(geometry) });
        add_inputs(&mut out, host, v);
    }
    out.push(Request::HostGetPopup { parent, host });
    let host_pos = to_host_positioner(positioner, parent_loc);
    let size = Rect { x: 0, y: 0, width: positioner.width, height: positioner.height };
    *slot = Some(
        PopupEntry {
            embedded,
            host,
            rect: size,
            geometry,
            state: PopupState::WaitConfigure { first: true },
            positioner,
            has_frame: true,
            dirty: false,
            scale120,
            pending: size,
        },
    );
    proof {
        assert(out@ =~= evicted + creation_requests(host, parent, geometry, list_view(input)));
    }
    (host_pos, out)
}

/// Applies a host configure of the popup shown as `host`: the configure is
/// acknowledged, then relayed to the applet, with the reposition token if any.
pub fn configure_popup(
    slot: &mut Option<PopupEntry>,
    host: u64,
    x: i32,
    y: i32,
    width: i32,
    height: i32,
    serial: u32,
    token: Option<u32>,
) -> (r: Vec<Request>)
    ensures
        (*final(slot), r@) == popup_configure(*old(slot), host, x, y, width, height, serial, token),
{
    let mut out: Vec<Request> = Vec::new();
    match slot {
        Some(p) => {
            if p.host == host {
                let rect = Rect { x, y, width, height };
                let first = match p.state {
                    PopupState::WaitConfigure { first } => first,
                    PopupState::Configured { .. } => false,
                };
                p.rect = rect;
                p.state = PopupState::Configured { first, x, y, width, height };
                out.push(Request::HostAckConfigure { host, serial });
                out.push(Request::EmbeddedConfigure { surface: p.embedded, rect, reposition: token });
            }
        },
        None => {},
    }
    proof {
        assert(out@ =~= popup_configure(*old(slot), host, x, y, width, height, serial, token).1);
    }
    out
}

/// The requests that answer a reposition: the host surface takes the new
/// size as its window geometry and is repositioned, then the applet learns
/// that it was repositioned and is configured with its new pending geometry.
pub open spec fn reposition_requests(p: PopupEntry, positioner: Positioner, token: u32) -> Seq<Request> {
    let size = Rect { x: 0, y: 0, width: positioner.width, height: positioner.height };
    seq![
        Request::HostWindowGeometry { host: p.host, rect: at_least_one(size) },
        Request::HostReposition { host: p.host, token },
        Request::EmbeddedRepositioned { surface: p.embedded, token },
        Request::EmbeddedConfigure { surface: p.embedded, rect: size, reposition: None },
    ]
}

/// The applet asks to move its popup. Done only where the host protocol
/// version can reposition; otherwise nothing changes and the caller is told.
pub fn reposition_popup(
    slot: &mut Option<PopupEntry>,
    embedded: u64,
    positioner: Positioner,
    parent_loc: Point,
    token: u32,
    version: u32,
) -> (r: Result<(Positioner, Vec<Request>), PopupError>)
    ensures
        !shows_embedded(*old(slot), embedded) ==> r == Err::<
            (Positioner, Vec<Request>),
            PopupError,
        >(PopupError::UnknownPopup) && *final(slot) == *old(slot),
        shows_embedded(*old(slot), embedded) && version < REPOSITION_VERSION
            ==> r == Err::<(Positioner, Vec<Request>), PopupError>(
            PopupError::RepositionUnsupported,
        ) && *final(slot) == *old(slot),
        shows_embedded(*old(slot), embedded) && version >= REPOSITION_VERSION
            ==> (r matches Ok(ok) && {
            let p = old(slot)->Some_0;
            &&& ok.0 == host_positioner(positioner, parent_loc)
            &&& *final(slot) == Some(
                PopupEntry {
                    positioner,
                    pending: Rect { x: 0, y: 0, width: positioner.width, height: positioner.height },
                    ..p
                },
            )
            &&& ok.1@ == reposition_requests(p, positioner, token)
        }),
{
    match slot {
        Some(p) => {
            if p.embedded != embedded {
                return Err(PopupError::UnknownPopup);
            }
            if version < REPOSITION_VERSION {
                return Err(PopupError::RepositionUnsupported);
            }
            let host_pos = to_host_positioner(positioner, parent_loc);
            let size = Rect { x: 0, y: 0, width: positioner.width, height: positioner.height };
            p.positioner = positioner;
            p.pending = size;
            let mut out: Vec<Request> = Vec::new();
            out.push(Request::HostWindowGeometry { host: p.host, rect: clamp_to_one(size) });
            out.push(Request::HostReposition { host: p.host, token });
            out.push(Request::EmbeddedRepositioned { surface: embedded, token });
            out.push(Request::EmbeddedConfigure { surface: embedded, rect: size, reposition: None });
            proof {
                assert(out@ =~= reposition_requests(*p, positioner, token));
            }
            Ok((host_pos, out))
        },
        None => Err(PopupError::UnknownPopup),
    }
}

/// The host reports that the popup shown as `host` is done: it is taken down.
/// A report about any other surface changes nothing.
pub fn close_popup(slot: &mut Option<PopupEntry>, host: u64) -> (r: Vec<Request>)
    ensures
        shows_host(*old(slot), host) ==> *final(slot) == None::<PopupEntry> && r@ == teardown(
            old(slot)->Some_0,
        ),
        !shows_host(*old(slot), host) ==> *final(slot) == *old(slot) && r@
            == Seq::<Request>::empty(),
{
    let is_it = match slot {
        Some(p) => p.host == host,
        None => false,
    };
    if is_it {
        close_popups(slot)
    } else {
        Vec::new()
    }
}

/// Takes down the open popup, if any.
pub fn close_popups(slot: &mut Option<PopupEntry>) -> (r: Vec<Request>)
    ensures
        *final(slot) == None::<PopupEntry>,
        r@ == match *old(slot) {
            Some(p) => teardown(p),
            None => Seq::<Request>::empty(),
        },
{
    let mut out: Vec<Request> = Vec::new();
    match slot {
        Some(p) => {
            out.push(Request::EmbeddedPopupDone { surface: p.embedded });
            out.push(Request::HostDestroyPopup { host: p.host });
        },
        None => {},
    }
    *slot = None;
    proof {
        match *old(slot) {
            Some(p) => assert(out@ =~= teardown(p)),
            None => assert(out@ =~= Seq::<Request>::empty()),
        }
    }
    out
}

/// The host-side input region updates for a popup whose bounding box is now
/// `bbox`: the box is cleared, then each of the applet's input rectangles,
/// by its size, is added back.
pub open spec fn input_requests(host: u64, bbox: Rect, input: Seq<Rect>) -> Seq<Request> {
    seq![Request::HostInputSubtract { host, rect: bbox }] + input_adds(host, input)
}

/// The popup slot and the requests after the applet committed new content
/// to popup surface `embedded`, whose bounding box is now `bbox`.
pub open spec fn popup_dirty(
    slot: Option<PopupEntry>,
    embedded: u64,
    bbox: Rect,
    geometry: Rect,
    input: Option<Seq<Rect>>,
) -> (Option<PopupEntry>, Seq<Request>) {
    match slot {
        Some(p) => if p.embedded == embedded {
            if bbox != p.rect && bbox.width > 0 && bbox.height > 0 {
                (
                    Some(PopupEntry { rect: at_least_one(bbox), geometry, dirty: true, ..p }),
                    seq![Request::HostWindowGeometry { host: p.host, rect: at_least_one(geometry) }]
                        + match input {
                        Some(v) => input_requests(p.host, bbox, v),
                        None => Seq::<Request>::empty(),
                    },
                )
            } else {
                (Some(PopupEntry { dirty: true, ..p }), Seq::<Request>::empty())
            }
        } else {
            (slot, Seq::<Request>::empty())
        },
        None => (slot, Seq::<Request>::empty()),
    }
}

/// The applet committed new content to its popup surface `embedded`, whose
/// bounding box is now `bbox`. Where the box moved or changed size and is not
/// empty, the host surface gets the applet's window geometry and the input
/// region, and the popup takes the new rectangle. The popup is marked dirty.
pub fn dirty_popup(
    slot: &mut Option<PopupEntry>,
    embedded: u64,
    bbox: Rect,
    geometry: Rect,
    input: Option<&Vec<Rect>>,
) -> (r: Vec<Request>)
    ensures
        (*final(slot), r@) == popup_dirty(*old(slot), embedded, bbox, geometry, list_view(input)),
{
    let mut out: Vec<Request> = Vec::new();
    match slot {
        Some(p) => {
            if p.embedded == embedded {
                if bbox != p.rect && bbox.width > 0 && bbox.height > 0 {
                    out.push(Request::HostWindowGeometry { host: p.host, rect: clamp_to_one(geometry) });
                    if let Some(v) = input {
                        out.push(Request::HostInputSubtract { host: p.host, rect: bbox });
                        add_inputs(&mut out, p.host, v);
                    }
                    p.rect = clamp_to_one(bbox);
                    p.geometry = geometry;
                }
                p.dirty = true;
            }
        },
        None => {},
    }
    proof {
        if let Some(p) = *old(slot) {
            if p.embedded == embedded && bbox != p.rect && bbox.width > 0 && bbox.height > 0 {
                match input {
                    Some(v) => {},
                    None => {
                        assert(out@ =~= seq![Request::HostWindowGeometry { host: p.host, rect: at_least_one(geometry) }]
                            + Seq::<Request>::empty());
                    },
                }
            }
        }
    }
    out
}

/// Raising popup B while popup A is open: A's host surface is destroyed,
/// a later host configure of A is ignored and changes nothing, and B goes
/// from waiting for its first configure to configured.
pub proof fn lemma_superseded_popup(
    a: PopupEntry,
    embedded: u64,
    host: u64,
    positioner: Positioner,
    geometry: Rect,
    x: i32,
    y: i32,
    width: i32,
    height: i32,
    serial: u32,
    token: Option<u32>,
    creation: Seq<Request>,
    scale120: u32,
)
    requires
        a.host != host,
    ensures
        ({
            let b = fresh_popup(embedded, host, positioner, geometry, scale120);
            let (slot, reqs) = popup_raise(Some(a), b, creation);
            &&& reqs.contains(Request::HostDestroyPopup { host: a.host })
            &&& b.state == PopupState::WaitConfigure { first: true }
            &&& popup_configure(slot, a.host, x, y, width, height, serial, token) == (
                slot,
                Seq::<Request>::empty(),
            )
            &&& popup_configure(slot, host, x, y, width, height, serial, token).0 matches Some(
                pb,
            ) && pb.host == host && pb.state == PopupState::Configured {
                first: true,
                x,
                y,
                width,
                height,
            }
        }),
{
    let b = fresh_popup(embedded, host, positioner, geometry, scale120);
    let (slot, reqs) = popup_raise(Some(a), b, creation);
    assert(reqs[0] == Request::HostDestroyPopup { host: a.host });
}

} // verus!
