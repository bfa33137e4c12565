//! The requests that the arrangement code makes of a display connection.
use vstd::prelude::*;
use crate::Xid;
use crate::geometry::Region;

verus! {

/// A request to the display failed.
#[derive(Debug, Clone, PartialEq, Eq)]
pub struct XError {
    pub message: String,
}

/// A request that changes what the display shows.
#[derive(Debug, Clone, Copy, PartialEq, Eq, Structural, Hash)]
pub enum Command {
    /// Place the window at the region, with a border of the given width, and
    /// whether it is stacked above the others.
    Position(Xid, Region, u32, bool),
    /// Map the window.
    MapClient(Xid),
    /// Unmap the window.
    UnmapClient(Xid),
    /// Raise the window above all others.
    Raise(Xid),
}

/// `n` successes.
pub open spec fn all_ok(n: nat) -> Seq<Result<(), XError>> {
    Seq::new(n, |_i: int| Ok(()))
}

/// A connection to the display. Implemented by the user of this library for
/// the display protocol in use; every request may fail.
pub trait XConn {
    /// The requests made on this connection, in the order they were made,
    /// whether or not they succeeded. A verified connection states its own
    /// record; this default names no particular one.
    closed spec fn requests(&self) -> Seq<Command> {
        arbitrary()
    }

    /// The results of the requests of `requests`, in the same order. A
    /// verified connection states its own record; this default names no
    /// particular one.
    closed spec fn outcomes(&self) -> Seq<Result<(), XError>> {
        arbitrary()
    }

    /// The geometry that the display holds for a window. A verified
    /// connection states its own; this default names no particular one.
    closed spec fn geometry(&self, id: Xid) -> Region {
        arbitrary()
    }

    /// The current geometry of a window. Nothing is requested of the display.
    fn client_geometry(&self, id: Xid) -> (res: Result<Region, XError>)
        ensures
            res matches Ok(g) ==> g == self.geometry(id),
    ;

    /// Place a window at `r`, drawing a border of `border_px` around it.
    fn position_client(&mut self, id: Xid, r: Region, border_px: u32, stack_above: bool) -> (res: Result<(), XError>)
        ensures
            final(self).requests() == old(self).requests().push(Command::Position(id, r, border_px, stack_above)),
            final(self).outcomes() == old(self).outcomes().push(res),
    ;

    /// Make a window visible.
    fn map_client(&mut self, id: Xid) -> (res: Result<(), XError>)
        ensures
            final(self).requests() == old(self).requests().push(Command::MapClient(id)),
            final(self).outcomes() == old(self).outcomes().push(res),
    ;

    /// Hide a window.
    fn unmap_client(&mut self, id: Xid) -> (res: Result<(), XError>)
        ensures
            final(self).requests() == old(self).requests().push(Command::UnmapClient(id)),
            final(self).outcomes() == old(self).outcomes().push(res),
    ;

    /// Raise a window above all others.
    fn raise_client(&mut self, id: Xid) -> (res: Result<(), XError>)
        ensures
            final(self).requests() == old(self).requests().push(Command::Raise(id)),
            final(self).outcomes() == old(self).outcomes().push(res),
    ;
}

} // verus!
