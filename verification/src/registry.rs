use vstd::prelude::*;

verus! {

/// A global object that the compositor advertises: its numeric name, the
/// interface it implements, and the newest version it offers.
pub struct Global {
    pub name: u32,
    pub interface: String,
    pub version: u32,
}

/// A global that the client binds: its numeric name and the version agreed on.
#[derive(Clone, Copy, Debug, PartialEq, Eq, Structural)]
pub struct BoundGlobal {
    pub name: u32,
    pub version: u32,
}

/// A protocol interface as the client library knows it: its name and the
/// newest version the library implements.
pub struct InterfaceInfo {
    pub name: String,
    pub version: u32,
}

/// The `wl_output` interface of `wayland-client`: `Proxy::interface()` of
/// `WlOutput`, generated from the bundled `wayland.xml`, which declares
/// `wl_output` at version 4.
#[verifier::external_body]
fn output_interface() -> (r: InterfaceInfo)
    ensures
        r.name@ == "wl_output"@,
        r.version == 4,
{
    let i = <wayland_client::protocol::wl_output::WlOutput as wayland_client::Proxy>::interface();
    InterfaceInfo { name: i.name.to_string(), version: i.version }
}

/// The `wl_shm` interface of `wayland-client`: `Proxy::interface()` of
/// `WlShm`, generated from the bundled `wayland.xml`, which declares
/// `wl_shm` at version 3.
#[verifier::external_body]
fn shm_interface() -> (r: InterfaceInfo)
    ensures
        r.name@ == "wl_shm"@,
        r.version == 3,
{
    let i = <wayland_client::protocol::wl_shm::WlShm as wayland_client::Proxy>::interface();
    InterfaceInfo { name: i.name.to_string(), version: i.version }
}

/// The `wl_seat` interface of `wayland-client`: `Proxy::interface()` of
/// `WlSeat`, generated from the bundled `wayland.xml`, which declares
/// `wl_seat` at version 11.
#[verifier::external_body]
fn seat_interface() -> (r: InterfaceInfo)
    ensures
        r.name@ == "wl_seat"@,
        r.version == 11,
{
    let i = <wayland_client::protocol::wl_seat::WlSeat as wayland_client::Proxy>::interface();
    InterfaceInfo { name: i.name.to_string(), version: i.version }
}

/// The screencopy manager interface of `wayland-protocols-wlr`:
/// `Proxy::interface()` of `ZwlrScreencopyManagerV1`, generated from the
/// bundled protocol file, which declares it at version 3.
#[verifier::external_body]
fn screencopy_manager_interface() -> (r: InterfaceInfo)
    ensures
        r.name@ == "zwlr_screencopy_manager_v1"@,
        r.version == 3,
{
    let i = <wayland_protocols_wlr::screencopy::v1::client::zwlr_screencopy_manager_v1::ZwlrScreencopyManagerV1 as wayland_client::Proxy>::interface();
    InterfaceInfo { name: i.name.to_string(), version: i.version }
}

/// The data-control manager interface of `wayland-protocols-wlr`:
/// `Proxy::interface()` of `ZwlrDataControlManagerV1`, generated from the
/// bundled protocol file, which declares it at version 2.
#[verifier::external_body]
fn data_control_manager_interface() -> (r: InterfaceInfo)
    ensures
        r.name@ == "zwlr_data_control_manager_v1"@,
        r.version == 2,
{
    let i = <wayland_protocols_wlr::data_control::v1::client::zwlr_data_control_manager_v1::ZwlrDataControlManagerV1 as wayland_client::Proxy>::interface();
    InterfaceInfo { name: i.name.to_string(), version: i.version }
}

/// The version a client binds: the compositor's offer, capped at the newest
/// version the client implements.
pub open spec fn negotiated(offered: u32, supported: u32) -> u32 {
    if offered <= supported {
        offered
    } else {
        supported
    }
}

/// The bindings that capturing needs, as an abstract value: every output in
/// the order advertised, and the last `wl_shm` and screencopy manager seen.
pub type CaptureView = (Seq<BoundGlobal>, Option<BoundGlobal>, Option<BoundGlobal>);

/// The capture bindings after one more advertised global.
pub open spec fn capture_step(st: CaptureView, g: Global) -> CaptureView {
    let b = |supported: u32| BoundGlobal { name: g.name, version: negotiated(g.version, supported) };
    if g.interface@ == "wl_output"@ {
        (st.0.push(b(4)), st.1, st.2)
    } else if g.interface@ == "wl_shm"@ {
        (st.0, Some(b(3)), st.2)
    } else if g.interface@ == "zwlr_screencopy_manager_v1"@ {
        (st.0, st.1, Some(b(3)))
    } else {
        st
    }
}

/// The capture bindings after the globals `gs`, in order.
pub open spec fn capture_registry(gs: Seq<Global>) -> CaptureView
    decreases gs.len(),
{
    if gs.len() == 0 {
        (Seq::empty(), None, None)
    } else {
        capture_step(capture_registry(gs.drop_last()), gs.last())
    }
}

/// The globals that a capture binds.
pub struct CaptureGlobals {
    pub outputs: Vec<BoundGlobal>,
    pub shm: Option<BoundGlobal>,
    pub screencopy_manager: Option<BoundGlobal>,
}

impl CaptureGlobals {
    pub open spec fn view(&self) -> CaptureView {
        (self.outputs@, self.shm, self.screencopy_manager)
    }

    /// Whether a capture can be requested: there is a screencopy manager and
    /// at least one output, the first of which is captured.
    pub open spec fn can_capture(&self) -> bool {
        self.screencopy_manager is Some && self.outputs@.len() > 0
    }
}

fn min_u32(a: u32, b: u32) -> (r: u32)
    ensures
        r == negotiated(a, b),
        r <= a && r <= b && (r == a || r == b),
{
    if a <= b {
        a
    } else {
        b
    }
}

/// Walks the globals that the compositor advertised, in order, and records
/// the ones a capture binds: each `wl_output`, and the `wl_shm` and
/// screencopy manager (a later one replaces an earlier one), each at the
/// offered version capped at the client's.
pub fn list_globals(globals: &Vec<Global>) -> (r: CaptureGlobals)
    ensures
        r.view() == capture_registry(globals@),
        forall|j: int|
            0 <= j < globals@.len() && #[trigger] globals@[j].interface@ == "wl_output"@ ==> exists|i: int|
                0 <= i < r.outputs@.len() && binds_at_smaller(#[trigger] r.outputs@[i], globals@[j], 4),
        advertises(globals@, "wl_shm"@) ==> exists|k: int|
            #[trigger] last_of(globals@, "wl_shm"@, k) && r.shm is Some && binds_at_smaller(
                r.shm->0,
                globals@[k],
                3,
            ),
        !advertises(globals@, "wl_shm"@) ==> r.shm is None,
        advertises(globals@, "zwlr_screencopy_manager_v1"@) ==> exists|k: int|
            #[trigger] last_of(globals@, "zwlr_screencopy_manager_v1"@, k) && r.screencopy_manager is Some
                && binds_at_smaller(r.screencopy_manager->0, globals@[k], 3),
        !advertises(globals@, "zwlr_screencopy_manager_v1"@) ==> r.screencopy_manager is None,
{
    proof {
        law_capture_bindings_complete(globals@);
    }
    let output = output_interface();
    let shm = shm_interface();
    let screencopy = screencopy_manager_interface();
    let mut st = CaptureGlobals { outputs: Vec::new(), shm: None, screencopy_manager: None };
    let mut i: usize = 0;
    proof {
        assert(globals@.take(0) =~= Seq::<Global>::empty());
        assert(st.view() =~= capture_registry(globals@.take(0)));
    }
    while i < globals.len()
        invariant
            i <= globals@.len(),
            output.name@ == "wl_output"@,
            output.version == 4,
            shm.name@ == "wl_shm"@,
            shm.version == 3,
            screencopy.name@ == "zwlr_screencopy_manager_v1"@,
            screencopy.version == 3,
            st.view() == capture_registry(globals@.take(i as int)),
        decreases globals@.len() - i,
    {
        let g = &globals[i];
        proof {
            assert(globals@.take(i + 1).drop_last() =~= globals@.take(i as int));
        }
        if g.interface == output.name {
            st.outputs.push(BoundGlobal { name: g.name, version: min_u32(g.version, output.version) });
        } else if g.interface == shm.name {
            st.shm = Some(BoundGlobal { name: g.name, version: min_u32(g.version, shm.version) });
        } else if g.interface == screencopy.name {
            st.screencopy_manager = Some(
                BoundGlobal { name: g.name, version: min_u32(g.version, screencopy.version) },
            );
        }
        i += 1;
        proof {
            assert(st.view() =~= capture_registry(globals@.take(i as int)));
        }
    }
    proof {
        assert(globals@.take(globals@.len() as int) =~= globals@);
    }
    st
}

/// The bindings that the clipboard needs: the last seat and the last
/// data-control manager advertised.
pub type ClipboardView = (Option<BoundGlobal>, Option<BoundGlobal>);

/// The clipboard bindings after one more advertised global.
pub open spec fn clipboard_step(st: ClipboardView, g: Global) -> ClipboardView {
    let b = |supported: u32| BoundGlobal { name: g.name, version: negotiated(g.version, supported) };
    if g.interface@ == "wl_seat"@ {
        (Some(b(11)), st.1)
    } else if g.interface@ == "zwlr_data_control_manager_v1"@ {
        (st.0, Some(b(2)))
    } else {
        st
    }
}

/// The clipboard bindings after the globals `gs`, in order.
pub open spec fn clipboard_registry(gs: Seq<Global>) -> ClipboardView
    decreases gs.len(),
{
    if gs.len() == 0 {
        (None, None)
    } else {
        clipboard_step(clipboard_registry(gs.drop_last()), gs.last())
    }
}

/// The globals that the clipboard binds.
pub struct ClipboardGlobals {
    pub seat: Option<BoundGlobal>,
    pub manager: Option<BoundGlobal>,
}

impl ClipboardGlobals {
    pub open spec fn view(&self) -> ClipboardView {
        (self.seat, self.manager)
    }
}

/// Walks the advertised globals, in order, and records the seat and the
/// data-control manager that the clipboard binds (a later one replaces an
/// earlier one), each at the offered version capped at the client's.
pub fn clipboard_globals(globals: &Vec<Global>) -> (r: ClipboardGlobals)
    ensures
        r.view() == clipboard_registry(globals@),
        advertises(globals@, "wl_seat"@) ==> exists|k: int|
            #[trigger] last_of(globals@, "wl_seat"@, k) && r.seat is Some && binds_at_smaller(
                r.seat->0,
                globals@[k],
                11,
            ),
        !advertises(globals@, "wl_seat"@) ==> r.seat is None,
        advertises(globals@, "zwlr_data_control_manager_v1"@) ==> exists|k: int|
            #[trigger] last_of(globals@, "zwlr_data_control_manager_v1"@, k) && r.manager is Some
                && binds_at_smaller(r.manager->0, globals@[k], 2),
        !advertises(globals@, "zwlr_data_control_manager_v1"@) ==> r.manager is None,
{
    proof {
        law_clipboard_bindings_complete(globals@);
    }
    let seat = seat_interface();
    let manager = data_control_manager_interface();
    let mut st = ClipboardGlobals { seat: None, manager: None };
    let mut i: usize = 0;
    proof {
        assert(globals@.take(0) =~= Seq::<Global>::empty());
    }
    while i < globals.len()
        invariant
            i <= globals@.len(),
            seat.name@ == "wl_seat"@,
            seat.version == 11,
            manager.name@ == "zwlr_data_control_manager_v1"@,
            manager.version == 2,
            st.view() == clipboard_registry(globals@.take(i as int)),
        decreases globals@.len() - i,
    {
        let g = &globals[i];
        proof {
            assert(globals@.take(i + 1).drop_last() =~= globals@.take(i as int));
        }
        if g.interface == seat.name {
            st.seat = Some(BoundGlobal { name: g.name, version: min_u32(g.version, seat.version) });
        } else if g.interface == manager.name {
            st.manager = Some(BoundGlobal { name: g.name, version: min_u32(g.version, manager.version) });
        }
        i += 1;
    }
    proof {
        assert(globals@.take(globals@.len() as int) =~= globals@);
    }
    st
}

/// The negotiated version is the smaller of the two: no newer than the
/// offer, no newer than what the client supports, and equal to one of them.
pub proof fn law_negotiated_is_smaller(offered: u32, supported: u32)
    ensures
        negotiated(offered, supported) <= offered,
        negotiated(offered, supported) <= supported,
        negotiated(offered, supported) == offered || negotiated(offered, supported) == supported,
{
}

/// Whether some advertised global has the interface `iface`.
pub open spec fn advertises(gs: Seq<Global>, iface: Seq<char>) -> bool {
    exists|j: int| 0 <= j < gs.len() && gs[j].interface@ == iface
}

/// Whether position `k` holds the last global of interface `iface`.
pub open spec fn last_of(gs: Seq<Global>, iface: Seq<char>, k: int) -> bool {
    &&& 0 <= k < gs.len()
    &&& gs[k].interface@ == iface
    &&& forall|m: int| k < m < gs.len() ==> gs[m].interface@ != iface
}

/// Whether `b` binds the advertised global `g` at the smaller of its offered
/// version and `supported`.
pub open spec fn binds_at_smaller(b: BoundGlobal, g: Global, supported: u32) -> bool {
    &&& b.name == g.name
    &&& b.version <= g.version
    &&& b.version <= supported
    &&& (b.version == g.version || b.version == supported)
}

proof fn lemma_last_global_other(gs: Seq<Global>, iface: Seq<char>)
    requires
        gs.len() > 0,
        gs.last().interface@ != iface,
    ensures
        advertises(gs, iface) == advertises(gs.drop_last(), iface),
        forall|k: int| last_of(gs.drop_last(), iface, k) ==> #[trigger] last_of(gs, iface, k),
{
    let prev = gs.drop_last();
    assert forall|j: int| 0 <= j < prev.len() implies #[trigger] gs[j] == prev[j] by {}
    if advertises(gs, iface) {
        let j = choose|j: int| 0 <= j < gs.len() && gs[j].interface@ == iface;
        assert(j != gs.len() - 1);
        assert(prev[j] == gs[j]);
    }
    if advertises(prev, iface) {
        let j = choose|j: int| 0 <= j < prev.len() && prev[j].interface@ == iface;
        assert(gs[j] == prev[j]);
    }
    assert forall|k: int| last_of(prev, iface, k) implies #[trigger] last_of(gs, iface, k) by {
        assert forall|m: int| k < m < gs.len() implies gs[m].interface@ != iface by {
            if m < gs.len() - 1 {
                assert(gs[m] == prev[m]);
            }
        }
    }
}

proof fn lemma_last_global_is_last(gs: Seq<Global>, iface: Seq<char>)
    requires
        gs.len() > 0,
        gs.last().interface@ == iface,
    ensures
        advertises(gs, iface),
        last_of(gs, iface, gs.len() - 1),
{
    assert(gs[gs.len() - 1] == gs.last());
}

/// Nothing a compositor advertises for a capture is left unbound: every
/// `wl_output` is among the bound outputs, and where a `wl_shm` (or a
/// screencopy manager) is advertised, the last one is bound; where none is,
/// none is bound. Each is bound at the smaller of the offered version and
/// the client's (4 for outputs, 3 for the other two).
pub proof fn law_capture_bindings_complete(gs: Seq<Global>)
    ensures
        forall|j: int|
            0 <= j < gs.len() && #[trigger] gs[j].interface@ == "wl_output"@ ==> exists|i: int|
                0 <= i < capture_registry(gs).0.len() && binds_at_smaller(
                    #[trigger] capture_registry(gs).0[i],
                    gs[j],
                    4,
                ),
        advertises(gs, "wl_shm"@) ==> exists|k: int|
            #[trigger] last_of(gs, "wl_shm"@, k) && capture_registry(gs).1 is Some && binds_at_smaller(
                capture_registry(gs).1->0,
                gs[k],
                3,
            ),
        !advertises(gs, "wl_shm"@) ==> capture_registry(gs).1 is None,
        advertises(gs, "zwlr_screencopy_manager_v1"@) ==> exists|k: int|
            #[trigger] last_of(gs, "zwlr_screencopy_manager_v1"@, k) && capture_registry(gs).2 is Some
                && binds_at_smaller(capture_registry(gs).2->0, gs[k], 3),
        !advertises(gs, "zwlr_screencopy_manager_v1"@) ==> capture_registry(gs).2 is None,
    decreases gs.len(),
{
    reveal_strlit("wl_output");
    reveal_strlit("wl_shm");
    reveal_strlit("zwlr_screencopy_manager_v1");
    if gs.len() == 0 {
        return;
    }
    let prev = gs.drop_last();
    let last = gs.last();
    let n = gs.len() - 1;
    assert("wl_output"@.len() == 9 && "wl_shm"@.len() == 6 && "zwlr_screencopy_manager_v1"@.len() == 26);
    law_capture_bindings_complete(prev);
    let ps = capture_registry(prev);
    let st = capture_registry(gs);
    assert(gs[n] == last);
    assert forall|j: int| 0 <= j < prev.len() implies #[trigger] gs[j] == prev[j] by {}
    law_negotiated_is_smaller(last.version, 4);
    law_negotiated_is_smaller(last.version, 3);
    // outputs
    assert(forall|i: int| 0 <= i < ps.0.len() ==> st.0[i] == ps.0[i]);
    assert(ps.0.len() <= st.0.len());
    assert forall|j: int|
        0 <= j < gs.len() && #[trigger] gs[j].interface@ == "wl_output"@ implies exists|i: int|
            0 <= i < st.0.len() && binds_at_smaller(#[trigger] st.0[i], gs[j], 4) by {
        if j < n {
            assert(prev[j].interface@ == "wl_output"@);
            let i = choose|i: int| 0 <= i < ps.0.len() && binds_at_smaller(#[trigger] ps.0[i], prev[j], 4);
            assert(st.0[i] == ps.0[i]);
        } else {
            let i = ps.0.len() as int;
            assert(st.0[i] == BoundGlobal { name: last.name, version: negotiated(last.version, 4) });
        }
    }
    // wl_shm
    if last.interface@ == "wl_shm"@ {
        assert(last.interface@ != "wl_output"@);
        assert(last.interface@ != "zwlr_screencopy_manager_v1"@);
        lemma_last_global_is_last(gs, "wl_shm"@);
        assert(last_of(gs, "wl_shm"@, n));
        assert(st.1 == Some(BoundGlobal { name: last.name, version: negotiated(last.version, 3) }));
        assert(binds_at_smaller(st.1->0, gs[n], 3));
    } else {
        lemma_last_global_other(gs, "wl_shm"@);
        assert(st.1 == ps.1);
        if advertises(prev, "wl_shm"@) {
            let k = choose|k: int|
                #[trigger] last_of(prev, "wl_shm"@, k) && ps.1 is Some && binds_at_smaller(ps.1->0, prev[k], 3);
            assert(last_of(gs, "wl_shm"@, k));
            assert(gs[k] == prev[k]);
        }
    }
    // screencopy manager
    if last.interface@ == "zwlr_screencopy_manager_v1"@ {
        assert(last.interface@ != "wl_output"@);
        assert(last.interface@ != "wl_shm"@);
        lemma_last_global_is_last(gs, "zwlr_screencopy_manager_v1"@);
        assert(last_of(gs, "zwlr_screencopy_manager_v1"@, n));
        assert(st.2 == Some(BoundGlobal { name: last.name, version: negotiated(last.version, 3) }));
        assert(binds_at_smaller(st.2->0, gs[n], 3));
    } else {
        lemma_last_global_other(gs, "zwlr_screencopy_manager_v1"@);
        assert(st.2 == ps.2);
        if advertises(prev, "zwlr_screencopy_manager_v1"@) {
            let k = choose|k: int|
                #[trigger] last_of(prev, "zwlr_screencopy_manager_v1"@, k) && ps.2 is Some && binds_at_smaller(ps.2->0, prev[k], 3);
            assert(last_of(gs, "zwlr_screencopy_manager_v1"@, k));
            assert(gs[k] == prev[k]);
        }
    }
}

/// Where a seat (or a data-control manager) is advertised, the clipboard
/// binds the last one, at the smaller of the offered version and the
/// client's (11 and 2); where none is, none is bound.
pub proof fn law_clipboard_bindings_complete(gs: Seq<Global>)
    ensures
        advertises(gs, "wl_seat"@) ==> exists|k: int|
            #[trigger] last_of(gs, "wl_seat"@, k) && clipboard_registry(gs).0 is Some && binds_at_smaller(
                clipboard_registry(gs).0->0,
                gs[k],
                11,
            ),
        !advertises(gs, "wl_seat"@) ==> clipboard_registry(gs).0 is None,
        advertises(gs, "zwlr_data_control_manager_v1"@) ==> exists|k: int|
            #[trigger] last_of(gs, "zwlr_data_control_manager_v1"@, k) && clipboard_registry(gs).1 is Some
                && binds_at_smaller(clipboard_registry(gs).1->0, gs[k], 2),
        !advertises(gs, "zwlr_data_control_manager_v1"@) ==> clipboard_registry(gs).1 is None,
    decreases gs.len(),
{
    reveal_strlit("wl_seat");
    reveal_strlit("zwlr_data_control_manager_v1");
    if gs.len() == 0 {
        return;
    }
    let prev = gs.drop_last();
    let last = gs.last();
    let n = gs.len() - 1;
    assert("wl_seat"@.len() == 7 && "zwlr_data_control_manager_v1"@.len() == 28);
    law_clipboard_bindings_complete(prev);
    let ps = clipboard_registry(prev);
    let st = clipboard_registry(gs);
    assert(gs[n] == last);
    assert forall|j: int| 0 <= j < prev.len() implies #[trigger] gs[j] == prev[j] by {}
    law_negotiated_is_smaller(last.version, 11);
    law_negotiated_is_smaller(last.version, 2);
    if last.interface@ == "wl_seat"@ {
        assert(last.interface@ != "zwlr_data_control_manager_v1"@);
        lemma_last_global_is_last(gs, "wl_seat"@);
        assert(last_of(gs, "wl_seat"@, n));
        assert(binds_at_smaller(st.0->0, gs[n], 11));
    } else {
        lemma_last_global_other(gs, "wl_seat"@);
        assert(st.0 == ps.0);
        if advertises(prev, "wl_seat"@) {
            let k = choose|k: int|
                #[trigger] last_of(prev, "wl_seat"@, k) && ps.0 is Some && binds_at_smaller(ps.0->0, prev[k], 11);
            assert(last_of(gs, "wl_seat"@, k));
            assert(gs[k] == prev[k]);
        }
    }
    if last.interface@ == "zwlr_data_control_manager_v1"@ {
        assert(last.interface@ != "wl_seat"@);
        lemma_last_global_is_last(gs, "zwlr_data_control_manager_v1"@);
        assert(last_of(gs, "zwlr_data_control_manager_v1"@, n));
        assert(binds_at_smaller(st.1->0, gs[n], 2));
    } else {
        lemma_last_global_other(gs, "zwlr_data_control_manager_v1"@);
        assert(st.1 == ps.1);
        if advertises(prev, "zwlr_data_control_manager_v1"@) {
            let k = choose|k: int|
                #[trigger] last_of(prev, "zwlr_data_control_manager_v1"@, k) && ps.1 is Some && binds_at_smaller(
                    ps.1->0,
                    prev[k],
                    2,
                );
            assert(last_of(gs, "zwlr_data_control_manager_v1"@, k));
            assert(gs[k] == prev[k]);
        }
    }
}

/// Every output a capture binds was advertised as a `wl_output` under the
/// same name, at a version no newer than offered and no newer than 4; the
/// bound `wl_shm` and screencopy manager likewise come from an advertised
/// global of their interface, capped at versions 3 and 3.
pub proof fn law_capture_bindings_advertised(gs: Seq<Global>)
    ensures
        forall|i: int|
            0 <= i < capture_registry(gs).0.len() ==> {
                let b = #[trigger] capture_registry(gs).0[i];
                &&& b.version <= 4
                &&& exists|j: int|
                    0 <= j < gs.len() && gs[j].name == b.name && gs[j].interface@ == "wl_output"@
                        && b.version <= gs[j].version
            },
        capture_registry(gs).1 matches Some(b) ==> b.version <= 3 && exists|j: int|
            0 <= j < gs.len() && gs[j].name == b.name && gs[j].interface@ == "wl_shm"@ && b.version
                <= gs[j].version,
        capture_registry(gs).2 matches Some(b) ==> b.version <= 3 && exists|j: int|
            0 <= j < gs.len() && gs[j].name == b.name && gs[j].interface@ == "zwlr_screencopy_manager_v1"@
                && b.version <= gs[j].version,
    decreases gs.len(),
{
    if gs.len() > 0 {
        let prev = gs.drop_last();
        law_capture_bindings_advertised(prev);
        let last = gs.len() - 1;
        assert forall|j: int| 0 <= j < prev.len() implies #[trigger] gs[j] == prev[j] by {}
        let st = capture_registry(gs);
        assert forall|i: int| 0 <= i < st.0.len() implies {
            let b = #[trigger] st.0[i];
            &&& b.version <= 4
            &&& exists|j: int|
                0 <= j < gs.len() && gs[j].name == b.name && gs[j].interface@ == "wl_output"@
                    && b.version <= gs[j].version
        } by {
            let ps = capture_registry(prev);
            if i < ps.0.len() {
                let b = ps.0[i];
                let j = choose|j: int|
                    0 <= j < prev.len() && prev[j].name == b.name && prev[j].interface@ == "wl_output"@
                        && b.version <= prev[j].version;
                assert(gs[j] == prev[j]);
            } else {
                assert(gs[last] == gs.last());
            }
        }
        let ps = capture_registry(prev);
        if let Some(b) = st.1 {
            if gs.last().interface@ == "wl_shm"@ {
                assert(gs[last] == gs.last());
            } else {
                let j = choose|j: int|
                    0 <= j < prev.len() && prev[j].name == b.name && prev[j].interface@ == "wl_shm"@
                        && b.version <= prev[j].version;
                assert(gs[j] == prev[j]);
            }
        }
        if let Some(b) = st.2 {
            if gs.last().interface@ == "zwlr_screencopy_manager_v1"@ && gs.last().interface@ != "wl_shm"@
                && gs.last().interface@ != "wl_output"@ {
                assert(gs[last] == gs.last());
            } else {
                let j = choose|j: int|
                    0 <= j < prev.len() && prev[j].name == b.name && prev[j].interface@
                        == "zwlr_screencopy_manager_v1"@ && b.version <= prev[j].version;
                assert(gs[j] == prev[j]);
            }
        }
    }
}

/// The seat and data-control manager the clipboard binds were advertised
/// under the same names with those interfaces, and are bound at versions no
/// newer than offered and no newer than 11 and 2.
pub proof fn law_clipboard_bindings_advertised(gs: Seq<Global>)
    ensures
        clipboard_registry(gs).0 matches Some(b) ==> b.version <= 11 && exists|j: int|
            0 <= j < gs.len() && gs[j].name == b.name && gs[j].interface@ == "wl_seat"@ && b.version
                <= gs[j].version,
        clipboard_registry(gs).1 matches Some(b) ==> b.version <= 2 && exists|j: int|
            0 <= j < gs.len() && gs[j].name == b.name && gs[j].interface@ == "zwlr_data_control_manager_v1"@
                && b.version <= gs[j].version,
    decreases gs.len(),
{
    if gs.len() > 0 {
        let prev = gs.drop_last();
        law_clipboard_bindings_advertised(prev);
        let last = gs.len() - 1;
        let st = clipboard_registry(gs);
        if let Some(b) = st.0 {
            if gs.last().interface@ == "wl_seat"@ {
                assert(gs[last] == gs.last());
            } else {
                let j = choose|j: int|
                    0 <= j < prev.len() && prev[j].name == b.name && prev[j].interface@ == "wl_seat"@
                        && b.version <= prev[j].version;
                assert(gs[j] == prev[j]);
            }
        }
        if let Some(b) = st.1 {
            if gs.last().interface@ == "zwlr_data_control_manager_v1"@ && gs.last().interface@ != "wl_seat"@ {
                assert(gs[last] == gs.last());
            } else {
                let j = choose|j: int|
                    0 <= j < prev.len() && prev[j].name == b.name && prev[j].interface@
                        == "zwlr_data_control_manager_v1"@ && b.version <= prev[j].version;
                assert(gs[j] == prev[j]);
            }
        }
    }
}

} // verus!
