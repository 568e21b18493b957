use markpad::watch::{change_notice, WatchSession, FILE_CHANGED};
use std::cell::Cell;
use std::rc::Rc;

struct Handle {
    live: Rc<Cell<i32>>,
}

impl Handle {
    fn start(live: &Rc<Cell<i32>>) -> Handle {
        live.set(live.get() + 1);
        Handle { live: live.clone() }
    }
}

impl Drop for Handle {
    fn drop(&mut self) {
        self.live.set(self.live.get() - 1);
    }
}

fn watch(
    session: &mut WatchSession<Handle>,
    live: &Rc<Cell<i32>>,
    path: &str,
    fails: bool,
) -> Result<(), String> {
    let pending = session.begin_watch(path.to_string());
    assert_eq!(live.get(), 0);
    assert_eq!(pending.path(), path);
    assert!(!pending.recursive());
    let started = if fails { Err(format!("cannot watch {}", path)) } else { Ok(Handle::start(live)) };
    session.finish_watch(pending, started)
}

#[test]
fn every_delivered_event_is_a_change() {
    assert_eq!(FILE_CHANGED, "file-changed");
    assert_eq!(change_notice(true), Some("file-changed"));
    assert_eq!(change_notice(false), None);
}

#[test]
fn new_session_watches_nothing() {
    let session: WatchSession<Handle> = WatchSession::new();
    assert_eq!(session.watched_path(), None);
}

#[test]
fn unwatch_without_a_watch() {
    let mut session: WatchSession<Handle> = WatchSession::new();
    session.unwatch();
    assert_eq!(session.watched_path(), None);
    session.unwatch();
    assert_eq!(session.watched_path(), None);
}

#[test]
fn watching_twice_leaves_one_watch() {
    let live = Rc::new(Cell::new(0));
    let mut session = WatchSession::new();
    assert_eq!(watch(&mut session, &live, "p.md", false), Ok(()));
    assert_eq!(live.get(), 1);
    assert_eq!(watch(&mut session, &live, "p.md", false), Ok(()));
    assert_eq!(live.get(), 1);
    assert_eq!(session.watched_path(), Some(&"p.md".to_string()));
}

#[test]
fn later_watch_replaces_the_earlier() {
    let live = Rc::new(Cell::new(0));
    let mut session = WatchSession::new();
    assert_eq!(watch(&mut session, &live, "p.md", false), Ok(()));
    assert_eq!(watch(&mut session, &live, "q.md", false), Ok(()));
    assert_eq!(live.get(), 1);
    assert_eq!(session.watched_path(), Some(&"q.md".to_string()));
}

#[test]
fn unwatch_stops_the_watch() {
    let live = Rc::new(Cell::new(0));
    let mut session = WatchSession::new();
    assert_eq!(watch(&mut session, &live, "p.md", false), Ok(()));
    session.unwatch();
    assert_eq!(live.get(), 0);
    assert_eq!(session.watched_path(), None);
}

#[test]
fn failed_watch_leaves_no_watch() {
    let live = Rc::new(Cell::new(0));
    let mut session = WatchSession::new();
    assert_eq!(watch(&mut session, &live, "p.md", false), Ok(()));
    assert_eq!(
        watch(&mut session, &live, "gone.md", true),
        Err("cannot watch gone.md".to_string())
    );
    assert_eq!(live.get(), 0);
    assert_eq!(session.watched_path(), None);
    assert_eq!(watch(&mut session, &live, "q.md", false), Ok(()));
    assert_eq!(session.watched_path(), Some(&"q.md".to_string()));
    assert_eq!(live.get(), 1);
}

#[test]
fn beginning_a_watch_lets_go_of_the_old_one() {
    let live = Rc::new(Cell::new(0));
    let mut session = WatchSession::new();
    assert_eq!(watch(&mut session, &live, "p.md", false), Ok(()));
    let pending = session.begin_watch("q.md".to_string());
    assert_eq!(live.get(), 0);
    assert_eq!(session.watched_path(), None);
    assert_eq!(pending.path(), "q.md");
}
