//! The watch session: the one slot that holds the file watch of the open
//! document.

use vstd::prelude::*;
use vstd::string::*;

verus! {

/// The event that tells the user interface that the watched file changed.
/// It carries no payload.
pub const FILE_CHANGED: &'static str = "file-changed";

/// What the user interface is told when the watching service delivers
/// something: the change event for every event that it delivers, whatever
/// its kind, and nothing for an error.
pub open spec fn notice_for(delivered_event: bool) -> Option<Seq<char>> {
    if delivered_event {
        Some(FILE_CHANGED@)
    } else {
        None
    }
}

/// Decides what to tell the user interface about a delivery of the
/// watching service; `delivered_event` says whether it was an event and no
/// error.
pub fn change_notice(delivered_event: bool) -> (event: Option<&'static str>)
    ensures
        match event {
            Some(name) => notice_for(delivered_event) == Some(name@),
            None => notice_for(delivered_event) is None,
        },
{
    if delivered_event {
        Some(FILE_CHANGED)
    } else {
        None
    }
}

/// A watch as the session holds it: the watched path and the handle that
/// keeps the watch alive. Dropping the handle stops the watch.
struct Watch<H> {
    path: String,
    handle: H,
}

/// An active watch: the watched path and the handle of the watching
/// service.
pub struct WatchView<H> {
    pub path: Seq<char>,
    pub handle: H,
}

/// The watch session. It holds at most one watch, the one most recently
/// started; `H` is the handle of the watching service.
pub struct WatchSession<H> {
    slot: Option<Watch<H>>,
}

/// The request for a watch on a path, given out once the session has let
/// go of the watch before it.
pub struct PendingWatch {
    path: String,
    recursive: bool,
}

impl View for PendingWatch {
    type V = Seq<char>;

    /// The path to watch.
    closed spec fn view(&self) -> Seq<char> {
        self.path@
    }
}

impl<H> View for WatchSession<H> {
    type V = Option<WatchView<H>>;

    /// The active watch, if any.
    closed spec fn view(&self) -> Option<WatchView<H>> {
        match self.slot {
            Some(watch) => Some(WatchView { path: watch.path@, handle: watch.handle }),
            None => None,
        }
    }
}

/// The state of a session once a watch on `path` was asked for in the
/// state `before` and the watching service answered with `started`: the
/// new watch where the service gave a handle, no watch where it failed.
/// What was watched before is let go either way.
pub open spec fn watched_after<H>(
    before: Option<WatchView<H>>,
    path: Seq<char>,
    started: Result<H, String>,
) -> Option<WatchView<H>> {
    match started {
        Ok(handle) => Some(WatchView { path, handle }),
        Err(_) => None,
    }
}

/// The state of a session once its watch was stopped.
pub open spec fn unwatched<H>(before: Option<WatchView<H>>) -> Option<WatchView<H>> {
    None
}

/// The number of active watches in a state of the session.
pub open spec fn active_watches<H>(state: Option<WatchView<H>>) -> nat {
    if state is Some {
        1
    } else {
        0
    }
}

/// Two watches started one after the other leave exactly one active
/// watch, the second: watching `p` twice leaves one watch on `p`, held by
/// the later handle; watching `p` and then `q` leaves one watch on `q` and,
/// where the two paths differ, none on `p`.
pub proof fn later_watch_replaces_earlier<H>(
    before: Option<WatchView<H>>,
    p: Seq<char>,
    q: Seq<char>,
    first: H,
    second: H,
)
    ensures
        active_watches(watched_after(watched_after(before, p, Ok(first)), p, Ok(second))) == 1,
        watched_after(watched_after(before, p, Ok(first)), p, Ok(second)) == Some(
            WatchView { path: p, handle: second },
        ),
        active_watches(watched_after(watched_after(before, p, Ok(first)), q, Ok(second))) == 1,
        watched_after(watched_after(before, p, Ok(first)), q, Ok(second)) == Some(
            WatchView { path: q, handle: second },
        ),
        p != q ==> watched_after(watched_after(before, p, Ok(first)), q, Ok(second))->0.path != p,
{
}

/// A watch that cannot be started leaves no watch active, whatever was
/// watched before.
pub proof fn failed_watch_leaves_none<H>(
    before: Option<WatchView<H>>,
    path: Seq<char>,
    message: String,
)
    ensures
        active_watches(watched_after(before, path, Err(message))) == 0,
{
}

/// Stopping the watch of a session that never had one leaves it as it was:
/// without a watch.
pub proof fn unwatch_without_watch_changes_nothing<H>()
    ensures
        unwatched(None::<WatchView<H>>) == None::<WatchView<H>>,
        active_watches(unwatched(None::<WatchView<H>>)) == 0,
{
}

impl<H> WatchSession<H> {
    /// The session at process start: nothing is watched.
    pub fn new() -> (session: Self)
        ensures
            session@ is None,
    {
        WatchSession { slot: None }
    }

    /// The path under watch, if any.
    pub fn watched_path(&self) -> (path: Option<&String>)
        ensures
            match path {
                Some(p) => self@ is Some && self@->0.path == p@,
                None => self@ is None,
            },
    {
        match &self.slot {
            Some(watch) => Some(&watch.path),
            None => None,
        }
    }

    /// Stops the watch, if there is one. Stopping without a watch is no
    /// failure: the session is left without a watch either way.
    pub fn unwatch(&mut self)
        ensures
            final(self)@ == unwatched(old(self)@),
    {
        self.slot = None;
    }

    /// First half of starting a watch on `path`: lets go of the watch held
    /// so far, whatever becomes of the new one, and asks for a watch on
    /// `path` alone, not on what lies below it. The caller passes the
    /// request to the watching service and hands the answer to
    /// `finish_watch`.
    pub fn begin_watch(&mut self, path: String) -> (pending: PendingWatch)
        ensures
            final(self)@ is None,
            pending@ == path@,
            !pending.is_recursive(),
    {
        self.slot = None;
        PendingWatch { path, recursive: false }
    }

    /// Second half of starting a watch: `started` is the watching
    /// service's answer to the request `pending`. A handle is installed as
    /// the session's watch; a failure leaves the session without a watch
    /// and comes back as the error.
    pub fn finish_watch(&mut self, pending: PendingWatch, started: Result<H, String>) -> (r: Result<
        (),
        String,
    >)
        ensures
            final(self)@ == watched_after(old(self)@, pending@, started),
            match started {
                Ok(_) => r is Ok,
                Err(message) => r == Err::<(), String>(message),
            },
    {
        match started {
            Ok(handle) => {
                self.slot = Some(Watch { path: pending.path, handle });
                Ok(())
            },
            Err(message) => {
                self.slot = None;
                Err(message)
            },
        }
    }
}

impl PendingWatch {
    /// Whether the watch is to cover what lies below the path.
    pub closed spec fn is_recursive(&self) -> bool {
        self.recursive
    }

    /// Whether the watch is to cover what lies below the path.
    pub fn recursive(&self) -> (r: bool)
        ensures
            r == self.is_recursive(),
    {
        self.recursive
    }

    /// The path to watch.
    pub fn path(&self) -> (path: &String)
        ensures
            path@ == self@,
    {
        &self.path
    }
}

} // verus!
