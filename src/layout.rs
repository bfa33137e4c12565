//! Layouts: a named strategy for placing the tiled windows of a workspace,
//! with the two knobs that a user adjusts while it runs.
use vstd::prelude::*;
use crate::Xid;
use crate::geometry::Region;

verus! {

/// The ratio is held in thousandths: `RATIO_SCALE` stands for 1.0.
pub const RATIO_SCALE: u32 = 1000;

/// Increase or decrease a knob.
#[derive(Debug, Clone, Copy, PartialEq, Eq, Structural, Hash)]
pub enum Change {
    More,
    Less,
}

/// Where a layout puts one tiled window: at a region (before gaps and
/// borders), or nowhere, in which case the window is hidden.
#[derive(Debug, Clone, Copy, PartialEq, Eq, Structural, Hash)]
pub enum Placement {
    Placed(Region),
    Hidden,
}

/// What a layout decides for a workspace: one placement per tiled window, in
/// order, and the windows that it leaves floating.
#[derive(Debug, Clone)]
pub struct Arrangement {
    pub actions: Vec<(Xid, Placement)>,
    pub floating: Vec<Xid>,
}

impl Arrangement {
    pub open spec fn view(&self) -> (Seq<(Xid, Placement)>, Seq<Xid>) {
        (self.actions@, self.floating@)
    }
}

/// When and how a layout is applied.
#[derive(Debug, Clone, Copy, PartialEq, Eq, Structural, Hash)]
pub struct LayoutConf {
    /// The layout computes no tiled placements: every window is floating.
    pub floating: bool,
    /// Gaps are dropped whatever the configured gap.
    pub gapless: bool,
    /// The layout is run again when the focus changes.
    pub follow_focus: bool,
    /// Cycling through clients wraps at the first and last.
    pub allow_wrapping: bool,
}

impl Default for LayoutConf {
    fn default() -> (r: Self)
        ensures
            r == (LayoutConf { floating: false, gapless: false, follow_focus: false, allow_wrapping: true }),
    {
        LayoutConf { floating: false, gapless: false, follow_focus: false, allow_wrapping: true }
    }
}

/// A placement strategy. It is given the tiled windows in order, the focused
/// window, the usable region and the two knobs, and decides an arrangement.
/// Strategies are written by the users of this library.
pub trait LayoutStrategy: Sized {
    /// The arrangement that the strategy decides on these inputs. A strategy
    /// that is verified states its own; this default names no particular one.
    closed spec fn spec_arrange(
        &self,
        clients: Seq<Xid>,
        focused: Option<Xid>,
        r: Region,
        max_main: u32,
        ratio: u32,
    ) -> (Seq<(Xid, Placement)>, Seq<Xid>) {
        arbitrary()
    }

    fn arrange(
        &self,
        clients: &[Xid],
        focused: Option<Xid>,
        r: &Region,
        max_main: u32,
        ratio: u32,
    ) -> (res: Arrangement)
        ensures
            res.view() == self.spec_arrange(clients@, focused, *r, max_main, ratio),
    ;
}

/// The strategy that manages nothing: every window floats.
#[derive(Debug, Clone, Copy, PartialEq, Eq, Structural, Hash, Default)]
pub struct Floating;

/// No tiled placements, and every window floating, in the order given.
pub fn floating_arrangement(clients: &[Xid]) -> (res: Arrangement)
    ensures
        res.actions@.len() == 0,
        res.floating@ == clients@,
{
    let mut floating: Vec<Xid> = Vec::new();
    let mut i: usize = 0;
    while i < clients.len()
        invariant
            i <= clients@.len(),
            floating@ == clients@.subrange(0, i as int),
        decreases clients@.len() - i,
    {
        floating.push(clients[i]);
        i = i + 1;
    }
    proof {
        assert(floating@ =~= clients@);
    }
    Arrangement { actions: Vec::new(), floating }
}

impl LayoutStrategy for Floating {
    open spec fn spec_arrange(
        &self,
        clients: Seq<Xid>,
        focused: Option<Xid>,
        r: Region,
        max_main: u32,
        ratio: u32,
    ) -> (Seq<(Xid, Placement)>, Seq<Xid>) {
        (Seq::empty(), clients)
    }

    fn arrange(
        &self,
        clients: &[Xid],
        focused: Option<Xid>,
        r: &Region,
        max_main: u32,
        ratio: u32,
    ) -> (res: Arrangement) {
        let res = floating_arrangement(clients);
        assert(res.actions@ =~= Seq::empty());
        res
    }
}

/// A layout: a label, its policy, the knobs `max_main` (how many windows the
/// main area holds) and `ratio` (the main area's share of the region, in
/// thousandths), and the strategy that places windows.
pub struct Layout<S> {
    pub conf: LayoutConf,
    pub symbol: String,
    max_main: u32,
    ratio: u32,
    pub f: S,
}

/// `v` held into `[0, RATIO_SCALE]`.
pub open spec fn clamp_ratio(v: int) -> u32 {
    if v < 0 {
        0
    } else if v > RATIO_SCALE {
        RATIO_SCALE
    } else {
        v as u32
    }
}

/// The ratio after one adjustment by `step` thousandths.
pub open spec fn spec_update_ratio(ratio: u32, change: Change, step: u32) -> u32 {
    clamp_ratio(
        match change {
            Change::More => ratio + step,
            Change::Less => ratio - step,
        },
    )
}

/// The ratio after a run of adjustments, applied in order.
pub open spec fn ratio_after(ratio: u32, changes: Seq<(Change, u32)>) -> u32
    decreases changes.len(),
{
    if changes.len() == 0 {
        ratio
    } else {
        let (c, step) = changes.last();
        spec_update_ratio(ratio_after(ratio, changes.drop_last()), c, step)
    }
}

/// However many adjustments are made, in whichever direction and by whatever
/// steps, the ratio stays within `[0, RATIO_SCALE]`.
pub proof fn lemma_ratio_stays_in_range(ratio: u32, changes: Seq<(Change, u32)>)
    requires
        ratio <= RATIO_SCALE,
    ensures
        0 <= ratio_after(ratio, changes) <= RATIO_SCALE,
    decreases changes.len(),
{
    if changes.len() > 0 {
        lemma_ratio_stays_in_range(ratio, changes.drop_last());
    }
}

impl<S> Layout<S> {
    /// The ratio never leaves `[0, RATIO_SCALE]`.
    #[verifier::type_invariant]
    spec fn ratio_in_range(&self) -> bool {
        self.ratio <= RATIO_SCALE
    }

    pub closed spec fn spec_conf(&self) -> LayoutConf {
        self.conf
    }

    pub closed spec fn spec_symbol(&self) -> Seq<char> {
        self.symbol@
    }

    /// The strategy that places windows.
    pub closed spec fn spec_f(&self) -> S {
        self.f
    }

    /// The layout's policy.
    pub fn conf(&self) -> (r: LayoutConf)
        ensures
            r == self.spec_conf(),
    {
        self.conf
    }

    /// How many windows the main area holds.
    pub closed spec fn spec_max_main(&self) -> u32 {
        self.max_main
    }

    /// The main area's share of the region, in thousandths.
    pub closed spec fn spec_ratio(&self) -> u32 {
        self.ratio
    }
}

impl<S: LayoutStrategy> Layout<S> {

    /// A layout with the given policy, strategy and starting knobs; the ratio
    /// is held into `[0, RATIO_SCALE]`.
    pub fn new(symbol: &str, conf: LayoutConf, f: S, max_main: u32, ratio: u32) -> (r: Self)
        ensures
            r.spec_ratio() <= RATIO_SCALE,
            r.spec_symbol() == symbol@,
            r.spec_conf() == conf,
            r.spec_f() == f,
            r.spec_max_main() == max_main,
            r.spec_ratio() == clamp_ratio(ratio as int),
    {
        let ratio = if ratio > RATIO_SCALE { RATIO_SCALE } else { ratio };
        Layout { conf, symbol: symbol.to_owned(), max_main, ratio, f }
    }

    /// Run the strategy with the current knobs. The layout is not changed.
    pub fn arrange(&self, clients: &[Xid], focused: Option<Xid>, r: &Region) -> (res: Arrangement)
        ensures
            res.view() == self.spec_f().spec_arrange(clients@, focused, *r, self.spec_max_main(), self.spec_ratio()),
    {
        self.f.arrange(clients, focused, r, self.max_main, self.ratio)
    }

    pub fn max_main(&self) -> (r: u32)
        ensures
            r == self.spec_max_main(),
    {
        self.max_main
    }

    pub fn ratio(&self) -> (r: u32)
        ensures
            r == self.spec_ratio(),
            r <= RATIO_SCALE,
    {
        proof {
            use_type_invariant(self);
        }
        self.ratio
    }

    /// One more or one fewer window in the main area, never below zero.
    /// At `u32::MAX` the count stays where it is.
    pub fn update_max_main(&mut self, change: Change)
        ensures
            final(self).spec_conf() == old(self).spec_conf(),
            final(self).spec_symbol() == old(self).spec_symbol(),
            final(self).spec_ratio() == old(self).spec_ratio(),
            final(self).spec_f() == old(self).spec_f(),
            final(self).spec_max_main() == match change {
                Change::More => if old(self).spec_max_main() < u32::MAX {
                    (old(self).spec_max_main() + 1) as u32
                } else {
                    old(self).spec_max_main()
                },
                Change::Less => if old(self).spec_max_main() > 0 {
                    (old(self).spec_max_main() - 1) as u32
                } else {
                    0
                },
            },
    {
        proof {
            use_type_invariant(&*self);
        }
        match change {
            Change::More => {
                if self.max_main < u32::MAX {
                    self.max_main = self.max_main + 1;
                }
            },
            Change::Less => {
                if self.max_main > 0 {
                    self.max_main = self.max_main - 1;
                }
            },
        }
    }

    /// Grow or shrink the main area by `step` thousandths, held into
    /// `[0, RATIO_SCALE]` after every call.
    pub fn update_main_ratio(&mut self, change: Change, step: u32)
        ensures
            final(self).spec_ratio() <= RATIO_SCALE,
            final(self).spec_conf() == old(self).spec_conf(),
            final(self).spec_symbol() == old(self).spec_symbol(),
            final(self).spec_max_main() == old(self).spec_max_main(),
            final(self).spec_f() == old(self).spec_f(),
            final(self).spec_ratio() == spec_update_ratio(old(self).spec_ratio(), change, step),
    {
        let r: u64 = self.ratio as u64;
        let s: u64 = step as u64;
        self.ratio = match change {
            Change::More => if r + s > RATIO_SCALE as u64 {
                RATIO_SCALE
            } else {
                (r + s) as u32
            },
            Change::Less => if r < s {
                0
            } else if r - s > RATIO_SCALE as u64 {
                RATIO_SCALE
            } else {
                (r - s) as u32
            },
        };
    }
}

impl Layout<Floating> {
    /// A layout that manages nothing: every window it is given floats.
    pub fn floating(symbol: &str) -> (r: Self)
        ensures
            r.spec_ratio() <= RATIO_SCALE,
            r.spec_symbol() == symbol@,
            r.spec_conf() == (LayoutConf { floating: true, gapless: false, follow_focus: false, allow_wrapping: true }),
            r.spec_max_main() == 1,
            r.spec_ratio() == RATIO_SCALE,
    {
        Layout {
            symbol: symbol.to_owned(),
            conf: LayoutConf { floating: true, gapless: false, follow_focus: false, allow_wrapping: true },
            f: Floating,
            max_main: 1,
            ratio: RATIO_SCALE,
        }
    }
}

impl<S: Clone> Clone for Layout<S> {
    /// A copy with the same policy, label, knobs and a clone of the strategy.
    fn clone(&self) -> (r: Self)
        ensures
            r.spec_conf() == self.spec_conf(),
            r.spec_symbol() == self.spec_symbol(),
            r.spec_max_main() == self.spec_max_main(),
            r.spec_ratio() == self.spec_ratio(),
    {
        proof {
            use_type_invariant(self);
        }
        Layout {
            conf: self.conf,
            symbol: self.symbol.clone(),
            max_main: self.max_main,
            ratio: self.ratio,
            f: self.f.clone(),
        }
    }
}

impl<S> PartialEq for Layout<S> {
    /// Two layouts are equal when their data agree; the strategy is not compared.
    fn eq(&self, other: &Layout<S>) -> (r: bool) {
        self.conf == other.conf && self.symbol == other.symbol && self.max_main == other.max_main
            && self.ratio == other.ratio
    }
}

impl<S> vstd::std_specs::cmp::PartialEqSpecImpl for Layout<S> {
    open spec fn obeys_eq_spec() -> bool {
        true
    }

    open spec fn eq_spec(&self, other: &Layout<S>) -> bool {
        self.spec_conf() == other.spec_conf() && self.spec_symbol() == other.spec_symbol() && self.spec_max_main() == other.spec_max_main()
            && self.spec_ratio() == other.spec_ratio()
    }
}

/// How many windows go to the main area, and how many to the secondary.
pub open spec fn spec_client_breakdown(n: nat, n_main: u32) -> (u32, u32) {
    if n <= n_main {
        (n as u32, 0)
    } else {
        (n_main, (n - n_main) as u32)
    }
}

/// Split `clients` into the main area (at most `n_main` windows) and the
/// secondary area (the rest).
pub fn client_breakdown<T>(clients: &[T], n_main: u32) -> (r: (u32, u32))
    requires
        clients@.len() <= u32::MAX,
    ensures
        r == spec_client_breakdown(clients@.len(), n_main),
{
    let n = clients.len() as u32;
    if n <= n_main {
        (n, 0)
    } else {
        (n_main, n - n_main)
    }
}

/// The two parts of a breakdown add up to the number of windows, and the main
/// part is no more than either `n_main` or that number.
pub proof fn lemma_breakdown_sums(n: nat, n_main: u32)
    requires
        n <= u32::MAX,
    ensures
        spec_client_breakdown(n, n_main).0 + spec_client_breakdown(n, n_main).1 == n,
        spec_client_breakdown(n, n_main).0 <= n_main,
        spec_client_breakdown(n, n_main).0 <= n,
{
}

} // verus!
