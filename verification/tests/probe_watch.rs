use texwatch::events::{ChangeEvent, EventQueue, FileKind};
use texwatch::probe::{probe, WatchTarget, watcher_step};

#[test]
fn probe_reports_change_iff_strictly_newer() {
    assert_eq!(probe(5, 3), (true, 5));
    assert_eq!(probe(3, 3), (false, 3));
    assert_eq!(probe(2, 3), (false, 3));
}

#[test]
fn probe_is_idempotent_without_new_write() {
    let (changed, baseline) = probe(10, 1);
    assert!(changed);
    assert_eq!(baseline, 10);
    let (changed_again, baseline_again) = probe(10, baseline);
    assert!(!changed_again);
    assert_eq!(baseline_again, 10);
}

#[test]
fn probe_baseline_never_decreases() {
    let (_, b1) = probe(7, 9);
    assert!(b1 >= 9);
    let (_, b2) = probe(12, 9);
    assert!(b2 >= 9);
}

#[test]
fn watcher_step_emits_tagged_event_and_advances_baseline() {
    let path = b"./main.tex".to_vec();
    let mut target = WatchTarget::new(path.clone(), FileKind::Tex, 0);
    let event = watcher_step(&mut target, 7);
    let event = event.expect("a strictly newer modification time emits an event");
    assert_eq!(event.kind, FileKind::Tex);
    assert_eq!(event.path, path);
    assert_eq!(target.last_seen, 7);

    let again = watcher_step(&mut target, 7);
    assert!(again.is_none());
    assert_eq!(target.last_seen, 7);
}

#[test]
fn event_queue_delivers_in_fifo_order_without_loss() {
    let mut queue = EventQueue::new();
    assert_eq!(queue.len(), 0);
    queue.enqueue(ChangeEvent {
        kind: FileKind::Tex,
        path: b"./a.tex".to_vec(),
    });
    queue.enqueue(ChangeEvent {
        kind: FileKind::Bib,
        path: b"./ref.bib".to_vec(),
    });
    queue.enqueue(ChangeEvent {
        kind: FileKind::Tex,
        path: b"./b.tex".to_vec(),
    });
    assert_eq!(queue.len(), 3);

    let first = queue.dequeue().unwrap();
    assert_eq!(first.kind, FileKind::Tex);
    assert_eq!(first.path, b"./a.tex".to_vec());
    let second = queue.dequeue().unwrap();
    assert_eq!(second.kind, FileKind::Bib);
    let third = queue.dequeue().unwrap();
    assert_eq!(third.path, b"./b.tex".to_vec());
    assert!(queue.dequeue().is_none());
}

#[test]
fn watcher_step_keeps_bib_kind() {
    let path = b"./ref.bib".to_vec();
    let mut target = WatchTarget::new(path.clone(), FileKind::Bib, 3);
    let event = watcher_step(&mut target, 4).expect("changed");
    assert_eq!(event.kind, FileKind::Bib);
    assert_eq!(event.path, path);
}
