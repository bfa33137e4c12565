//! The arrangement pass: for a workspace shown on a screen, run its layout
//! and turn the decisions into display requests, in a fixed order.
use vstd::prelude::*;
use crate::Xid;
use crate::geometry::{Region, pad_region, spec_pad_region, floating_region, spec_floating_region};
use crate::layout::{Arrangement, Layout, LayoutStrategy, Placement};
use crate::xconnection::{Command, XConn, XError, all_ok};

verus! {

/// The notification that a workspace (first) was arranged on a screen (second).
#[derive(Debug, Clone, Copy, PartialEq, Eq, Structural, Hash)]
pub enum EventAction {
    LayoutApplied(usize, usize),
}

/// The settings that an arrangement pass reads.
#[derive(Debug, Clone, Copy, PartialEq, Eq, Structural, Hash)]
pub struct LayoutSettings {
    /// Space is reserved for a status bar.
    pub show_bar: bool,
    pub border_px: u32,
    pub gap_px: u32,
}

/// A screen and the workspace it shows.
#[derive(Debug, Clone, Copy, PartialEq, Eq, Structural, Hash)]
pub struct Screen {
    /// The index of the workspace shown.
    pub wix: usize,
    /// The whole screen.
    pub true_region: Region,
    /// The screen less the strip kept for a status bar.
    pub effective_region: Region,
}

impl Screen {
    pub open spec fn spec_region(&self, show_bar: bool) -> Region {
        if show_bar {
            self.effective_region
        } else {
            self.true_region
        }
    }

    /// The region that windows may use.
    pub fn region(&self, show_bar: bool) -> (r: Region)
        ensures
            r == self.spec_region(show_bar),
    {
        if show_bar {
            self.effective_region
        } else {
            self.true_region
        }
    }
}

/// A workspace: its active layout, its tiled windows in order and the
/// focused window.
#[derive(Clone)]
pub struct Workspace<S> {
    pub layout: Layout<S>,
    pub clients: Vec<Xid>,
    pub focused: Option<Xid>,
}

/// What the arrangement pass works on.
pub struct WindowManager<X, S> {
    pub conn: X,
    pub config: LayoutSettings,
    pub screens: Vec<Screen>,
    pub workspaces: Vec<Workspace<S>>,
    /// The windows that are currently mapped.
    pub mapped: Vec<Xid>,
}

/// Screen `i` shows workspace `wix`, and no screen before it does.
pub open spec fn first_screen_for(screens: Seq<Screen>, wix: usize, i: int) -> bool {
    0 <= i < screens.len() && screens[i].wix == wix && forall|j: int| 0 <= j < i ==> screens[j].wix != wix
}

/// No screen shows workspace `wix`.
pub open spec fn not_shown(screens: Seq<Screen>, wix: usize) -> bool {
    forall|j: int| 0 <= j < screens.len() ==> screens[j].wix != wix
}

/// The requests for one tiled window, given the windows mapped at that point:
/// a placed window is positioned at its padded region with the configured
/// border and then mapped unless it is mapped already; a hidden window is
/// unmapped if it is mapped.
pub open spec fn action_commands(a: (Xid, Placement), mapped: Seq<Xid>, gapless: bool, s: LayoutSettings) -> Seq<Command> {
    match a.1 {
        Placement::Placed(r) => {
            let pos = seq![Command::Position(a.0, spec_pad_region(r, gapless, s.gap_px, s.border_px), s.border_px, false)];
            if mapped.contains(a.0) {
                pos
            } else {
                pos.push(Command::MapClient(a.0))
            }
        },
        Placement::Hidden => if mapped.contains(a.0) {
            seq![Command::UnmapClient(a.0)]
        } else {
            Seq::empty()
        },
    }
}

/// The requests for the tiled windows, in their order. Whether a window is
/// mapped is read as the earlier requests of the pass have left it.
pub open spec fn tiled_commands(actions: Seq<(Xid, Placement)>, mapped: Seq<Xid>, gapless: bool, s: LayoutSettings) -> Seq<Command>
    decreases actions.len(),
{
    if actions.len() == 0 {
        Seq::empty()
    } else {
        let prev = tiled_commands(actions.drop_last(), mapped, gapless, s);
        prev + action_commands(actions.last(), mapped_after(mapped, prev), gapless, s)
    }
}

/// The requests of one pass: the tiled windows, then a raise for each
/// floating window.
pub open spec fn spec_layout_commands(
    arr: (Seq<(Xid, Placement)>, Seq<Xid>),
    mapped: Seq<Xid>,
    gapless: bool,
    s: LayoutSettings,
) -> Seq<Command> {
    tiled_commands(arr.0, mapped, gapless, s) + arr.1.map_values(|id: Xid| Command::Raise(id))
}

/// The request raises a window.
pub open spec fn is_raise(c: Command) -> bool {
    c is Raise
}

impl<X: XConn, S: LayoutStrategy> WindowManager<X, S> {
    /// Every screen shows a workspace that exists, and no two show the same.
    pub open spec fn wf(&self) -> bool {
        &&& forall|i: int| 0 <= i < self.screens@.len() ==> self.screens@[i].wix < self.workspaces@.len()
        &&& forall|i: int, j: int|
            0 <= i < j < self.screens@.len() ==> self.screens@[i].wix != self.screens@[j].wix
    }

    /// The arrangement that the active layout of workspace `wix` makes with
    /// its current knobs, over the workspace's windows in order, its focused
    /// window and the usable region of screen `i`.
    pub open spec fn spec_arrangement(&self, wix: usize, i: int) -> (Seq<(Xid, Placement)>, Seq<Xid>) {
        let ws = self.workspaces@[wix as int];
        ws.layout.spec_f().spec_arrange(
            ws.clients@,
            ws.focused,
            self.screens@[i].spec_region(self.config.show_bar),
            ws.layout.spec_max_main(),
            ws.layout.spec_ratio(),
        )
    }

    /// The requests that arranging workspace `wix` on screen `i` makes when
    /// the windows `mapped` are mapped.
    pub open spec fn spec_plan_with(&self, wix: usize, i: int, mapped: Seq<Xid>) -> Seq<Command> {
        spec_layout_commands(
            self.spec_arrangement(wix, i),
            mapped,
            self.workspaces@[wix as int].layout.spec_conf().gapless,
            self.config,
        )
    }

    /// The requests that arranging workspace `wix` on screen `i` makes.
    pub open spec fn spec_plan(&self, wix: usize, i: int) -> Seq<Command> {
        self.spec_plan_with(wix, i, self.mapped@)
    }

    /// The requests that arranging the workspaces of the first `k` screens
    /// makes, one screen after another, and the windows mapped once they
    /// have all succeeded.
    pub open spec fn visible_plan(&self, k: nat) -> (Seq<Command>, Seq<Xid>)
        decreases k,
    {
        if k == 0 {
            (Seq::empty(), self.mapped@)
        } else {
            let (prev, m) = self.visible_plan((k - 1) as nat);
            let p = self.spec_plan_with(self.screens@[k - 1].wix, k - 1, m);
            (prev + p, mapped_after(m, p))
        }
    }
}

/// Whether `id` is in `ids`.
fn contains(ids: &Vec<Xid>, id: Xid) -> (r: bool)
    ensures
        r == ids@.contains(id),
{
    let mut i: usize = 0;
    while i < ids.len()
        invariant
            i <= ids@.len(),
            forall|j: int| 0 <= j < i ==> ids@[j] != id,
        decreases ids@.len() - i,
    {
        if ids[i] == id {
            return true;
        }
        i = i + 1;
    }
    false
}

/// The screen that shows workspace `wix`, if any.
pub fn screen_for_workspace(screens: &Vec<Screen>, wix: usize) -> (r: Option<usize>)
    ensures
        r is None <==> not_shown(screens@, wix),
        r matches Some(i) ==> first_screen_for(screens@, wix, i as int),
{
    let mut i: usize = 0;
    while i < screens.len()
        invariant
            i <= screens@.len(),
            forall|j: int| 0 <= j < i ==> screens@[j].wix != wix,
        decreases screens@.len() - i,
    {
        if screens[i].wix == wix {
            return Some(i);
        }
        i = i + 1;
    }
    None
}

/// A copy of `ids`.
fn copy_ids(ids: &Vec<Xid>) -> (r: Vec<Xid>)
    ensures
        r@ == ids@,
{
    let mut r: Vec<Xid> = Vec::new();
    let mut k: usize = 0;
    while k < ids.len()
        invariant
            k <= ids@.len(),
            r@ == ids@.subrange(0, k as int),
        decreases ids@.len() - k,
    {
        r.push(ids[k]);
        k = k + 1;
    }
    assert(r@ =~= ids@);
    r
}

/// The display requests of one arrangement pass, in the order they are made.
pub fn layout_commands(arr: &Arrangement, mapped: &Vec<Xid>, gapless: bool, s: LayoutSettings) -> (r: Vec<Command>)
    ensures
        r@ == spec_layout_commands(arr.view(), mapped@, gapless, s),
{
    let mut cmds: Vec<Command> = Vec::new();
    let mut cur = copy_ids(mapped);
    let mut i: usize = 0;
    while i < arr.actions.len()
        invariant
            i <= arr.actions@.len(),
            cmds@ == tiled_commands(arr.actions@.subrange(0, i as int), mapped@, gapless, s),
            cur@ == mapped_after(mapped@, cmds@),
        decreases arr.actions@.len() - i,
    {
        let (id, placement) = arr.actions[i];
        let ghost before = cmds@;
        let ghost m = cur@;
        match placement {
            Placement::Placed(region) => {
                cmds.push(Command::Position(id, pad_region(&region, gapless, s.gap_px, s.border_px), s.border_px, false));
                assert(cmds@.drop_last() =~= before);
                assert(mapped_after(mapped@, cmds@) == mapped_after(mapped@, before));
                if !contains(&cur, id) {
                    let ghost mid = cmds@;
                    cmds.push(Command::MapClient(id));
                    assert(cmds@.drop_last() =~= mid);
                    assert(mapped_after(mapped@, cmds@) == mapped_after(mapped@, mid).push(id));
                    cur.push(id);
                }
            },
            Placement::Hidden => {
                if contains(&cur, id) {
                    cmds.push(Command::UnmapClient(id));
                    assert(cmds@.drop_last() =~= before);
                    assert(mapped_after(mapped@, cmds@) == without(mapped_after(mapped@, before), id));
                    cur = remove_id(&cur, id);
                }
            },
        }
        proof {
            let next = arr.actions@.subrange(0, i + 1);
            assert(next.drop_last() =~= arr.actions@.subrange(0, i as int));
            assert(next.last() == arr.actions@[i as int]);
            assert(cmds@ =~= before + action_commands(arr.actions@[i as int], m, gapless, s));
        }
        i = i + 1;
    }
    assert(arr.actions@.subrange(0, arr.actions@.len() as int) =~= arr.actions@);
    let ghost tiled = cmds@;
    let mut k: usize = 0;
    while k < arr.floating.len()
        invariant
            k <= arr.floating@.len(),
            cmds@ =~= tiled + arr.floating@.subrange(0, k as int).map_values(|id: Xid| Command::Raise(id)),
        decreases arr.floating@.len() - k,
    {
        cmds.push(Command::Raise(arr.floating[k]));
        k = k + 1;
    }
    assert(arr.floating@.subrange(0, arr.floating@.len() as int) =~= arr.floating@);
    cmds
}

/// Within one pass, no request for a tiled window comes after a raise: every
/// raise of a floating window follows all the tiled placements, maps and
/// unmaps.
pub proof fn lemma_raises_come_last(
    arr: (Seq<(Xid, Placement)>, Seq<Xid>),
    mapped: Seq<Xid>,
    gapless: bool,
    s: LayoutSettings,
)
    ensures
        forall|i: int, j: int|
            0 <= i < j < spec_layout_commands(arr, mapped, gapless, s).len() && is_raise(
                spec_layout_commands(arr, mapped, gapless, s)[i],
            ) ==> is_raise(spec_layout_commands(arr, mapped, gapless, s)[j]),
{
    let t = tiled_commands(arr.0, mapped, gapless, s);
    lemma_tiled_has_no_raise(arr.0, mapped, gapless, s);
    let all = spec_layout_commands(arr, mapped, gapless, s);
    assert forall|i: int, j: int| 0 <= i < j < all.len() && is_raise(all[i]) implies is_raise(all[j]) by {
        if i < t.len() {
            assert(all[i] == t[i]);
        }
        assert(j >= t.len());
        assert(all[j] == Command::Raise(arr.1[j - t.len()]));
    }
}

proof fn lemma_tiled_has_no_raise(actions: Seq<(Xid, Placement)>, mapped: Seq<Xid>, gapless: bool, s: LayoutSettings)
    ensures
        forall|i: int|
            0 <= i < tiled_commands(actions, mapped, gapless, s).len() ==> !is_raise(
                #[trigger] tiled_commands(actions, mapped, gapless, s)[i],
            ),
    decreases actions.len(),
{
    if actions.len() > 0 {
        lemma_tiled_has_no_raise(actions.drop_last(), mapped, gapless, s);
        let prev = tiled_commands(actions.drop_last(), mapped, gapless, s);
        let cur = action_commands(actions.last(), mapped_after(mapped, prev), gapless, s);
        let all = tiled_commands(actions, mapped, gapless, s);
        assert forall|i: int| 0 <= i < all.len() implies !is_raise(#[trigger] all[i]) by {
            if i < prev.len() {
                assert(all[i] == prev[i]);
            } else {
                assert(all[i] == cur[i - prev.len()]);
            }
        }
    }
}

/// `ids` without any occurrence of `id`.
pub open spec fn without(ids: Seq<Xid>, id: Xid) -> Seq<Xid>
    decreases ids.len(),
{
    if ids.len() == 0 {
        Seq::empty()
    } else if ids.last() == id {
        without(ids.drop_last(), id)
    } else {
        without(ids.drop_last(), id).push(ids.last())
    }
}

/// The mapped windows once the requests `cmds` have succeeded: a mapped
/// window is added, an unmapped one removed.
pub open spec fn mapped_after(mapped: Seq<Xid>, cmds: Seq<Command>) -> Seq<Xid>
    decreases cmds.len(),
{
    if cmds.len() == 0 {
        mapped
    } else {
        let before = mapped_after(mapped, cmds.drop_last());
        match cmds.last() {
            Command::MapClient(id) => before.push(id),
            Command::UnmapClient(id) => without(before, id),
            _ => before,
        }
    }
}

/// Following two runs of requests is following the one after the other.
pub proof fn lemma_mapped_after_concat(mapped: Seq<Xid>, a: Seq<Command>, b: Seq<Command>)
    ensures
        mapped_after(mapped, a + b) == mapped_after(mapped_after(mapped, a), b),
    decreases b.len(),
{
    if b.len() == 0 {
        assert(a + b =~= a);
    } else {
        lemma_mapped_after_concat(mapped, a, b.drop_last());
        assert((a + b).drop_last() =~= a + b.drop_last());
        assert((a + b).last() == b.last());
    }
}

fn remove_id(ids: &Vec<Xid>, id: Xid) -> (r: Vec<Xid>)
    ensures
        r@ == without(ids@, id),
{
    let mut rest: Vec<Xid> = Vec::new();
    let mut k: usize = 0;
    while k < ids.len()
        invariant
            k <= ids@.len(),
            rest@ == without(ids@.subrange(0, k as int), id),
        decreases ids@.len() - k,
    {
        proof {
            let next = ids@.subrange(0, k + 1);
            assert(next.drop_last() =~= ids@.subrange(0, k as int));
        }
        if ids[k] != id {
            rest.push(ids[k]);
        }
        k = k + 1;
    }
    assert(ids@.subrange(0, ids@.len() as int) =~= ids@);
    rest
}

/// Make the requests in order, stopping at the first that fails, whose
/// error is returned. The record of mapped windows follows each map and
/// unmap that succeeded.
fn run_commands<X: XConn>(conn: &mut X, mapped: &mut Vec<Xid>, cmds: &Vec<Command>) -> (r: Result<(), XError>)
    ensures
        r is Ok ==> final(mapped)@ == mapped_after(old(mapped)@, cmds@) && final(conn).requests() == old(conn).requests()
            + cmds@ && final(conn).outcomes() == old(conn).outcomes() + all_ok(cmds@.len()),
        r matches Err(e) ==> exists|k: int|
            0 <= k < cmds@.len() && final(mapped)@ == mapped_after(old(mapped)@, cmds@.take(k)) && final(conn).requests()
                == old(conn).requests() + cmds@.take(k + 1) && final(conn).outcomes() == old(conn).outcomes() + all_ok(
                k as nat,
            ).push(Err(e)),
{
    let mut i: usize = 0;
    while i < cmds.len()
        invariant
            i <= cmds@.len(),
            mapped@ == mapped_after(old(mapped)@, cmds@.take(i as int)),
            conn.requests() == old(conn).requests() + cmds@.take(i as int),
            conn.outcomes() == old(conn).outcomes() + all_ok(i as nat),
        decreases cmds@.len() - i,
    {
        proof {
            assert(cmds@.take(i + 1).drop_last() =~= cmds@.take(i as int));
            assert(cmds@.take(i + 1) =~= cmds@.take(i as int).push(cmds@[i as int]));
            assert(old(conn).requests() + cmds@.take(i + 1) =~= (old(conn).requests() + cmds@.take(i as int)).push(
                cmds@[i as int],
            ));
        }
        let res = match cmds[i] {
            Command::Position(id, region, border_px, stack_above) => conn.position_client(id, region, border_px, stack_above),
            Command::MapClient(id) => conn.map_client(id),
            Command::UnmapClient(id) => conn.unmap_client(id),
            Command::Raise(id) => conn.raise_client(id),
        };
        match res {
            Ok(()) => {
                assert(res->Ok_0 == ());
                assert(old(conn).outcomes() + all_ok((i + 1) as nat) =~= (old(conn).outcomes() + all_ok(i as nat)).push(
                    Ok(()),
                ));
            },
            Err(e) => {
                return Err(e);
            },
        }
        match cmds[i] {
            Command::MapClient(id) => {
                mapped.push(id);
            },
            Command::UnmapClient(id) => {
                *mapped = remove_id(mapped, id);
            },
            _ => {},
        }
        i = i + 1;
    }
    assert(cmds@.take(cmds@.len() as int) =~= cmds@);
    Ok(())
}

/// The screen that shows workspace `wix`, the arrangement that the
/// workspace's active layout makes in that screen's usable region, and the
/// requests that carry it out; `None` where no screen shows the workspace.
pub fn plan_layout<X: XConn, S: LayoutStrategy>(wm: &WindowManager<X, S>, wix: usize) -> (r: Option<(usize, Arrangement, Vec<Command>)>)
    requires
        wm.wf(),
    ensures
        r is None <==> not_shown(wm.screens@, wix),
        r matches Some((i, arr, cmds)) ==> first_screen_for(wm.screens@, wix, i as int) && arr.view()
            == wm.spec_arrangement(wix, i as int) && cmds@ == wm.spec_plan(wix, i as int),
{
    let i = match screen_for_workspace(&wm.screens, wix) {
        Some(i) => i,
        None => return None,
    };
    let region = wm.screens[i].region(wm.config.show_bar);
    let ws = &wm.workspaces[wix];
    let arr = ws.layout.arrange(ws.clients.as_slice(), ws.focused, &region);
    let cmds = layout_commands(&arr, &wm.mapped, ws.layout.conf().gapless, wm.config);
    Some((i, arr, cmds))
}

/// Arrange workspace `wix` on the screen that shows it. A workspace that no
/// screen shows is left alone: no request is made and no notification comes
/// back. Otherwise the requests of `plan_layout` are made in order; the first
/// that fails ends the pass and its error is returned, and what was placed
/// before it stays placed.
pub fn apply_layout<X: XConn, S: LayoutStrategy>(wm: &mut WindowManager<X, S>, wix: usize) -> (r: Result<Option<EventAction>, XError>)
    requires
        old(wm).wf(),
    ensures
        final(wm).wf(),
        final(wm).config == old(wm).config,
        final(wm).screens == old(wm).screens,
        final(wm).workspaces == old(wm).workspaces,
        not_shown(old(wm).screens@, wix) ==> r == Ok::<Option<EventAction>, XError>(None) && final(wm).mapped
            == old(wm).mapped && final(wm).conn == old(wm).conn,
        forall|i: int| #[trigger]
            first_screen_for(old(wm).screens@, wix, i) ==> {
                &&& r is Ok ==> r == Ok::<Option<EventAction>, XError>(Some(EventAction::LayoutApplied(wix, i as usize)))
                    && final(wm).mapped@ == mapped_after(old(wm).mapped@, old(wm).spec_plan(wix, i))
                    && final(wm).conn.requests() == old(wm).conn.requests() + old(wm).spec_plan(wix, i)
                    && final(wm).conn.outcomes() == old(wm).conn.outcomes() + all_ok(old(wm).spec_plan(wix, i).len())
                &&& r matches Err(e) ==> exists|k: int|
                    0 <= k < old(wm).spec_plan(wix, i).len() && final(wm).mapped@ == mapped_after(
                        old(wm).mapped@,
                        old(wm).spec_plan(wix, i).take(k),
                    ) && final(wm).conn.requests() == old(wm).conn.requests() + old(wm).spec_plan(wix, i).take(k + 1)
                        && final(wm).conn.outcomes() == old(wm).conn.outcomes() + all_ok(k as nat).push(Err(e))
            },
{
    let (i, arr, cmds) = match plan_layout(wm, wix) {
        Some(p) => p,
        None => return Ok(None),
    };
    let ran = run_commands(&mut wm.conn, &mut wm.mapped, &cmds);
    proof {
        assert forall|j: int| first_screen_for(old(wm).screens@, wix, j) implies j == i as int by {
            if j < i {
                assert(old(wm).screens@[j].wix != wix);
            }
            if j > i {
                assert(old(wm).screens@[i as int].wix != wix);
            }
        }
    }
    match ran {
        Ok(()) => Ok(Some(EventAction::LayoutApplied(wix, i))),
        Err(e) => Err(e),
    }
}

/// The windows mapped once the screens' requests have succeeded are what
/// those requests leave of the windows mapped at the start.
pub proof fn lemma_visible_mapped<X: XConn, S: LayoutStrategy>(wm: WindowManager<X, S>, k: nat)
    ensures
        wm.visible_plan(k).1 == mapped_after(wm.mapped@, wm.visible_plan(k).0),
    decreases k,
{
    if k > 0 {
        lemma_visible_mapped(wm, (k - 1) as nat);
        let (prev, m) = wm.visible_plan((k - 1) as nat);
        let p = wm.spec_plan_with(wm.screens@[k - 1].wix, k - 1, m);
        lemma_mapped_after_concat(wm.mapped@, prev, p);
    }
}

/// The requests for the first `j` screens begin the requests for the first
/// `n`.
pub proof fn lemma_visible_prefix<X: XConn, S: LayoutStrategy>(wm: WindowManager<X, S>, j: nat, n: nat)
    requires
        j <= n,
    ensures
        wm.visible_plan(j).0.len() <= wm.visible_plan(n).0.len(),
        wm.visible_plan(n).0.take(wm.visible_plan(j).0.len() as int) == wm.visible_plan(j).0,
    decreases n,
{
    let lj = wm.visible_plan(j).0.len() as int;
    if j < n {
        lemma_visible_prefix(wm, j, (n - 1) as nat);
        let (prev, m) = wm.visible_plan((n - 1) as nat);
        let p = wm.spec_plan_with(wm.screens@[n - 1].wix, n - 1, m);
        assert(wm.visible_plan(n).0 == prev + p);
        assert(wm.visible_plan(n).0.take(lj) =~= prev.take(lj));
    } else {
        assert(wm.visible_plan(n).0.take(lj) =~= wm.visible_plan(n).0);
    }
}

/// Arrange every workspace that a screen shows, one screen after another,
/// each with the windows mapped as the screens before it left them. Where
/// every request succeeds, the requests are exactly those of `visible_plan`
/// and there is one notification per screen, in the order of the screens.
/// The first request that fails ends the call, and its error is returned:
/// the requests made are those of `visible_plan` up to and including it.
pub fn layout_visible<X: XConn, S: LayoutStrategy>(wm: &mut WindowManager<X, S>) -> (r: Result<Vec<EventAction>, XError>)
    requires
        old(wm).wf(),
    ensures
        final(wm).wf(),
        final(wm).config == old(wm).config,
        final(wm).screens == old(wm).screens,
        final(wm).workspaces == old(wm).workspaces,
        old(wm).screens@.len() == 0 ==> (r matches Ok(v) && v@.len() == 0) && final(wm).conn == old(wm).conn
            && final(wm).mapped == old(wm).mapped,
        r is Ok ==> final(wm).conn.requests() == old(wm).conn.requests() + old(wm).visible_plan(
            old(wm).screens@.len() as nat,
        ).0 && final(wm).mapped@ == old(wm).visible_plan(old(wm).screens@.len() as nat).1 && final(wm).conn.outcomes()
            == old(wm).conn.outcomes() + all_ok(old(wm).visible_plan(old(wm).screens@.len() as nat).0.len()),
        r matches Err(e) ==> exists|n: int|
            0 <= n < old(wm).visible_plan(old(wm).screens@.len() as nat).0.len() && final(wm).conn.requests()
                == old(wm).conn.requests() + old(wm).visible_plan(old(wm).screens@.len() as nat).0.take(n + 1)
                && final(wm).mapped@ == mapped_after(
                old(wm).mapped@,
                old(wm).visible_plan(old(wm).screens@.len() as nat).0.take(n),
            ) && final(wm).conn.outcomes() == old(wm).conn.outcomes() + all_ok(n as nat).push(Err(e)),
        r matches Ok(v) ==> v@.len() == old(wm).screens@.len() && forall|i: int|
            0 <= i < v@.len() ==> v@[i] == EventAction::LayoutApplied(old(wm).screens@[i].wix, i as usize),
{
    let mut notes: Vec<EventAction> = Vec::new();
    let mut k: usize = 0;
    proof {
        assert(wm.conn.requests() + Seq::<Command>::empty() =~= wm.conn.requests());
        assert(wm.conn.outcomes() + all_ok(0) =~= wm.conn.outcomes());
    }
    while k < wm.screens.len()
        invariant
            wm.wf(),
            wm.config == old(wm).config,
            wm.screens == old(wm).screens,
            wm.workspaces == old(wm).workspaces,
            k <= wm.screens@.len(),
            k == 0 ==> wm.conn == old(wm).conn && wm.mapped == old(wm).mapped,
            wm.conn.requests() == old(wm).conn.requests() + old(wm).visible_plan(k as nat).0,
            wm.mapped@ == old(wm).visible_plan(k as nat).1,
            wm.conn.outcomes() == old(wm).conn.outcomes() + all_ok(old(wm).visible_plan(k as nat).0.len()),
            notes@.len() == k,
            forall|i: int| 0 <= i < k ==> notes@[i] == EventAction::LayoutApplied(wm.screens@[i].wix, i as usize),
        decreases wm.screens@.len() - k,
    {
        let wix = wm.screens[k].wix;
        let ghost screens = wm.screens@;
        let ghost before = *wm;
        assert(first_screen_for(screens, wix, k as int));
        let res = apply_layout(wm, wix);
        proof {
            let total = old(wm).screens@.len() as nat;
            let vpk = old(wm).visible_plan(k as nat).0;
            let m = old(wm).visible_plan(k as nat).1;
            let p = old(wm).spec_plan_with(wix, k as int, m);
            assert(before.spec_plan(wix, k as int) == p);
            assert(old(wm).visible_plan((k + 1) as nat).0 == vpk + p);
            if res is Ok {
                assert(old(wm).conn.requests() + vpk + p =~= old(wm).conn.requests() + (vpk + p));
                assert(old(wm).conn.outcomes() + all_ok(vpk.len()) + all_ok(p.len()) =~= old(wm).conn.outcomes() + all_ok(
                    (vpk + p).len(),
                ));
            } else {
                let e = res->Err_0;
                let j = choose|j: int|
                    0 <= j < p.len() && wm.mapped@ == mapped_after(m, p.take(j)) && wm.conn.requests()
                        == before.conn.requests() + p.take(j + 1) && wm.conn.outcomes() == before.conn.outcomes()
                        + all_ok(j as nat).push(Err(e));
                lemma_visible_prefix(*old(wm), (k + 1) as nat, total);
                let vpn = old(wm).visible_plan(total).0;
                let n = vpk.len() + j;
                assert(vpn.take((vpk + p).len() as int) == vpk + p);
                assert(vpn.take(n + 1) =~= vpk + p.take(j + 1));
                assert(vpn.take(n) =~= vpk + p.take(j));
                lemma_visible_mapped(*old(wm), k as nat);
                lemma_mapped_after_concat(old(wm).mapped@, vpk, p.take(j));
                assert(old(wm).conn.requests() + vpk + p.take(j + 1) =~= old(wm).conn.requests() + (vpk + p.take(
                    j + 1,
                )));
                assert(wm.mapped@ == mapped_after(old(wm).mapped@, vpn.take(n)));
                assert(wm.conn.requests() == old(wm).conn.requests() + vpn.take(n + 1));
                assert(old(wm).conn.outcomes() + all_ok(vpk.len()) + all_ok(j as nat).push(Err(e)) =~= old(wm).conn.outcomes()
                    + all_ok(n as nat).push(Err(e)));
            }
        }
        let note = match res {
            Ok(n) => n,
            Err(e) => return Err(e),
        };
        match note {
            Some(n) => notes.push(n),
            None => {},
        }
        k = k + 1;
    }
    Ok(notes)
}

/// Place a floating window where `floating_region` puts it, from the geometry
/// that the display reports for it, with the given border and not stacked
/// above. Where the query fails its error is returned and nothing is
/// requested; otherwise the one placement is made and its result returned.
pub fn position_floating_client<X: XConn>(conn: &mut X, id: Xid, screen_region: Region, border_px: u32) -> (r: Result<(), XError>)
    ensures
        final(conn).requests() == old(conn).requests() || final(conn).requests() == old(conn).requests().push(
            Command::Position(id, spec_floating_region(old(conn).geometry(id), screen_region, border_px), border_px, false),
        ),
        final(conn).requests() == old(conn).requests() ==> r is Err && final(conn).outcomes() == old(conn).outcomes(),
        final(conn).requests() != old(conn).requests() ==> final(conn).outcomes() == old(conn).outcomes().push(r),
{
    let geometry = conn.client_geometry(id)?;
    let reg = floating_region(geometry, screen_region, border_px);
    let ghost before = conn.requests();
    let r = conn.position_client(id, reg, border_px, false);
    assert(conn.requests().len() == before.len() + 1);
    r
}

} // verus!
