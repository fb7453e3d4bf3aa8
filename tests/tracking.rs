use compositor::{BuildOutcome, Compositor, Event, Geometry, MapState, Note, Registry, Step, Window};

const ROOT: u32 = 1;

fn geometry(x: i16, y: i16, width: u16, height: u16, border_width: u16) -> Geometry {
    Geometry { x, y, width, height, border_width }
}

fn descriptor(mapped: bool, needs_rebind: bool) -> Window {
    Window { mapped, x: 3, y: -4, w: 30, h: 40, border: 2, needs_rebind }
}

fn record(tag: u8, at4: u32, at8: u32, at12: u32) -> Vec<u8> {
    let mut raw = vec![0u8; 32];
    raw[0] = tag;
    raw[4..8].copy_from_slice(&at4.to_le_bytes());
    raw[8..12].copy_from_slice(&at8.to_le_bytes());
    raw[12..16].copy_from_slice(&at12.to_le_bytes());
    raw
}

/// Runs one event through the loop, performing a requested fetch with the
/// given outcome.
fn run(c: &mut Compositor, e: Event, fetched: BuildOutcome) -> Note {
    match c.dispatch(Some(e)) {
        Step::Fetch(id) => c.complete_add(id, fetched),
        Step::Done(n) => n,
        Step::Finished => panic!("stream ended"),
    }
}

fn current(c: &Compositor, id: u32) -> Window {
    c.registry().get(id).expect("window is tracked")
}

#[test]
fn seed_scenario() {
    let mut c = Compositor::new(ROOT);
    let w5 = Window::from_replies(Some(MapState::Viewable), Some(geometry(0, 0, 100, 50, 1)));
    let w6 = Window::from_replies(Some(MapState::Unviewable), Some(geometry(1, 1, 10, 10, 0)));
    assert_eq!(w6, BuildOutcome::Unviewable);
    c.seed(&vec![5, 6], &vec![w5, w6]);
    let expected = Window { mapped: true, x: 0, y: 0, w: 100, h: 50, border: 1, needs_rebind: true };
    assert_eq!(c.registry().get(5), Some(expected));
    assert_eq!(c.registry().get(6), None);
    assert_eq!(c.registry().stack(), vec![5]);
    assert_eq!(c.registry().len(), 1);
}

#[test]
fn create_destroy_race_scenario() {
    let mut c = Compositor::new(ROOT);
    let step = c.dispatch(Some(Event::CreateNotify { window: 10, parent: ROOT }));
    assert_eq!(step, Step::Fetch(10));
    // The destruction notice is handled while the fetch is outstanding.
    let note = run(&mut c, Event::DestroyNotify { window: 10 }, BuildOutcome::Failed);
    assert_eq!(note, Note::UnknownWindow);
    assert_eq!(c.complete_add(10, BuildOutcome::Unviewable), Note::Unviewable);
    assert!(!c.registry().contains(10));
    assert!(c.registry().stack().is_empty());
}

#[test]
fn remap_scenario() {
    let mut c = Compositor::new(ROOT);
    c.seed(&vec![5], &vec![BuildOutcome::Built(descriptor(true, false))]);
    assert_eq!(run(&mut c, Event::UnmapNotify { window: 5 }, BuildOutcome::Failed), Note::Unmapped);
    assert_eq!(current(&c, 5), descriptor(false, false));
    assert_eq!(run(&mut c, Event::MapNotify { window: 5 }, BuildOutcome::Failed), Note::Mapped);
    assert_eq!(current(&c, 5), descriptor(true, true));
}

#[test]
fn reparent_out_scenario() {
    let mut c = Compositor::new(ROOT);
    c.seed(&vec![4, 5, 6], &vec![
        BuildOutcome::Built(descriptor(true, true)),
        BuildOutcome::Built(descriptor(false, true)),
        BuildOutcome::Built(descriptor(true, true)),
    ]);
    let note = run(&mut c, Event::ReparentNotify { window: 5, parent: 77 }, BuildOutcome::Failed);
    assert_eq!(note, Note::Untracked);
    assert!(!c.registry().contains(5));
    assert_eq!(c.registry().stack(), vec![4, 6]);
}

#[test]
fn reparent_into_root_fetches() {
    let mut c = Compositor::new(ROOT);
    let built = BuildOutcome::Built(descriptor(false, true));
    let note = run(&mut c, Event::ReparentNotify { window: 9, parent: ROOT }, built);
    assert_eq!(note, Note::Added);
    assert_eq!(c.registry().stack(), vec![9]);
    // Known already: no fetch is asked for.
    let step = c.dispatch(Some(Event::ReparentNotify { window: 9, parent: ROOT }));
    assert_eq!(step, Step::Done(Note::AlreadyTracked));
    // Reparenting an unknown window elsewhere is harmless.
    let step = c.dispatch(Some(Event::ReparentNotify { window: 12, parent: 3 }));
    assert_eq!(step, Step::Done(Note::UnknownWindow));
    assert_eq!(c.registry().stack(), vec![9]);
}

#[test]
fn creation_under_other_parent_is_ignored() {
    let mut c = Compositor::new(ROOT);
    let step = c.dispatch(Some(Event::CreateNotify { window: 8, parent: 2 }));
    assert_eq!(step, Step::Done(Note::NotChildOfRoot));
    assert!(c.registry().stack().is_empty());
}

#[test]
fn unviewable_creation_is_never_added() {
    let mut c = Compositor::new(ROOT);
    let note = run(&mut c, Event::CreateNotify { window: 11, parent: ROOT }, BuildOutcome::Unviewable);
    assert_eq!(note, Note::Unviewable);
    assert!(!c.registry().contains(11));
    let note = run(&mut c, Event::CreateNotify { window: 12, parent: ROOT }, BuildOutcome::Failed);
    assert_eq!(note, Note::FetchFailed);
    assert!(!c.registry().contains(12));
}

#[test]
fn track_twice_changes_only_once() {
    let mut r = Registry::new();
    assert!(r.track(7, descriptor(true, true)));
    assert!(!r.track(7, descriptor(false, false)));
    assert_eq!(r.get(7), Some(descriptor(true, true)));
    assert_eq!(r.stack(), vec![7]);
}

#[test]
fn untrack_twice_changes_only_once() {
    let mut r = Registry::new();
    r.track(1, descriptor(true, true));
    r.track(2, descriptor(true, true));
    r.track(3, descriptor(true, true));
    assert!(r.untrack(2));
    assert!(!r.untrack(2));
    assert!(!r.untrack(99));
    assert_eq!(r.stack(), vec![1, 3]);
    assert_eq!(r.len(), 2);
    assert_eq!(r.get(2), None);
}

#[test]
fn map_is_unconditional() {
    let mut r = Registry::new();
    r.track(1, descriptor(true, false));
    assert!(r.set_mapped(1));
    assert_eq!(r.get(1), Some(descriptor(true, true)));
    assert!(r.set_unmapped(1));
    assert_eq!(r.get(1), Some(descriptor(false, true)));
    assert!(!r.set_mapped(2));
    assert!(!r.set_unmapped(2));
}

#[test]
fn stack_matches_registry_after_a_run() {
    let mut c = Compositor::new(ROOT);
    let built = BuildOutcome::Built(descriptor(true, true));
    for id in [20u32, 21, 22, 23] {
        run(&mut c, Event::CreateNotify { window: id, parent: ROOT }, built);
    }
    run(&mut c, Event::DestroyNotify { window: 21 }, built);
    run(&mut c, Event::CreateNotify { window: 20, parent: ROOT }, built);
    run(&mut c, Event::ReparentNotify { window: 23, parent: 5 }, built);
    run(&mut c, Event::ReparentNotify { window: 21, parent: ROOT }, built);
    let stack = c.registry().stack();
    assert_eq!(stack, vec![20, 22, 21]);
    assert_eq!(c.registry().len(), stack.len());
    for id in stack {
        assert!(c.registry().contains(id));
    }
}

#[test]
fn observed_and_unknown_events_change_nothing() {
    let mut c = Compositor::new(ROOT);
    c.seed(&vec![5], &vec![BuildOutcome::Built(descriptor(true, true))]);
    for e in [
        Event::ConfigureNotify { window: 5 },
        Event::CirculateNotify { window: 5 },
        Event::GravityNotify { window: 5 },
        Event::PropertyNotify { window: 5 },
        Event::ClientMessage { window: 5 },
    ] {
        assert_eq!(c.dispatch(Some(e)), Step::Done(Note::Observed));
    }
    assert_eq!(c.dispatch(Some(Event::Unknown { tag: 90 })), Step::Done(Note::Unhandled));
    assert_eq!(c.dispatch(Some(Event::Undecodable)), Step::Done(Note::Undecodable));
    assert_eq!(c.registry().get(5), Some(descriptor(true, true)));
    assert_eq!(c.registry().stack(), vec![5]);
}

#[test]
fn end_of_stream_finishes_without_change() {
    let mut c = Compositor::new(ROOT);
    c.seed(&vec![5], &vec![BuildOutcome::Built(descriptor(true, true))]);
    assert_eq!(c.dispatch(None), Step::Finished);
    assert_eq!(c.registry().stack(), vec![5]);
    assert_eq!(c.registry().get(5), Some(descriptor(true, true)));
    assert_eq!(c.root(), ROOT);
}

#[test]
fn build_outcomes() {
    let g = geometry(-7, 8, 640, 480, 3);
    assert_eq!(
        Window::from_replies(Some(MapState::Unmapped), Some(g)),
        BuildOutcome::Built(Window { mapped: false, x: -7, y: 8, w: 640, h: 480, border: 3, needs_rebind: true })
    );
    assert_eq!(Window::from_replies(None, Some(g)), BuildOutcome::Failed);
    assert_eq!(Window::from_replies(Some(MapState::Viewable), None), BuildOutcome::Failed);
    assert_eq!(Window::from_replies(Some(MapState::Unviewable), None), BuildOutcome::Failed);
}

#[test]
fn map_state_from_wire() {
    assert_eq!(MapState::from_wire(0), MapState::Unmapped);
    assert_eq!(MapState::from_wire(1), MapState::Unviewable);
    assert_eq!(MapState::from_wire(2), MapState::Viewable);
    assert_eq!(MapState::from_wire(9), MapState::Unmapped);
}

#[test]
fn decode_records() {
    assert_eq!(Event::decode(&record(16, 1, 0x0040_0001, 0)), Event::CreateNotify { window: 0x0040_0001, parent: 1 });
    assert_eq!(Event::decode(&record(17, 1, 5, 0)), Event::DestroyNotify { window: 5 });
    assert_eq!(Event::decode(&record(18, 1, 5, 0)), Event::UnmapNotify { window: 5 });
    assert_eq!(Event::decode(&record(19, 1, 5, 0)), Event::MapNotify { window: 5 });
    assert_eq!(
        Event::decode(&record(21, 1, 5, 0xdead_beef)),
        Event::ReparentNotify { window: 5, parent: 0xdead_beef }
    );
    assert_eq!(Event::decode(&record(22, 1, 5, 0)), Event::ConfigureNotify { window: 5 });
    assert_eq!(Event::decode(&record(24, 1, 5, 0)), Event::GravityNotify { window: 5 });
    assert_eq!(Event::decode(&record(26, 1, 5, 0)), Event::CirculateNotify { window: 5 });
    assert_eq!(Event::decode(&record(28, 6, 5, 0)), Event::PropertyNotify { window: 6 });
    assert_eq!(Event::decode(&record(33, 6, 5, 0)), Event::ClientMessage { window: 6 });
    // An event sent by another client carries the high bit.
    assert_eq!(Event::decode(&record(0x80 | 17, 1, 5, 0)), Event::DestroyNotify { window: 5 });
    assert_eq!(Event::decode(&record(92, 1, 5, 0)), Event::Unknown { tag: 92 });
    assert_eq!(Event::decode(&[17u8, 0, 0, 0]), Event::Undecodable);
    assert_eq!(Event::decode(&[]), Event::Undecodable);
}
