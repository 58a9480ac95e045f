use shader_playground::file_watcher::FileWatcher;
use shader_playground::file_watcher::ResolvedEvent;

fn event(path: &str, dir: &str, file: &str) -> ResolvedEvent {
    ResolvedEvent { path: path.to_owned(), dir: dir.to_owned(), file: file.to_owned() }
}

#[test]
fn watcher_constructs_and_polls_empty() {
    let w = FileWatcher::new(250).expect("creating the debounced watcher");
    assert_eq!(w.file_changed(), None);
}

#[test]
fn watching_a_missing_path_fails_and_watches_nothing() {
    let mut w = FileWatcher::new(250).expect("creating the debounced watcher");
    assert!(w.watch("/no/such/path/shader.frag").is_err());
    assert!(!w.tracker.dir_subscribed(&"/no/such/path".to_owned()));
}

#[test]
fn unwatching_a_missing_path_is_absorbed() {
    let mut w = FileWatcher::new(250).expect("creating the debounced watcher");
    assert!(w.unwatch("/no/such/path/shader.frag").is_ok());
    assert!(w.unwatch_all().is_ok());
}

#[test]
fn one_poll_yields_the_last_watched_event_only() {
    let mut w = FileWatcher::new(250).expect("creating the debounced watcher");
    w.tracker.insert(&"/shaders".to_owned(), &"a.frag".to_owned());
    let events = vec![
        event("/shaders/a.frag", "/shaders", "a.frag"),
        event("/other/b.frag", "/other", "b.frag"),
        event("/shaders/./a.frag", "/shaders", "a.frag"),
    ];
    assert_eq!(
        w.last_watched_path(&events),
        Some("/shaders/./a.frag".to_owned())
    );
}

#[test]
fn events_outside_the_watched_set_are_discarded() {
    let mut w = FileWatcher::new(250).expect("creating the debounced watcher");
    w.tracker.insert(&"/shaders".to_owned(), &"a.frag".to_owned());
    let events = vec![
        event("/other/b.frag", "/other", "b.frag"),
        event("/shaders/c.frag", "/shaders", "c.frag"),
    ];
    assert_eq!(w.last_watched_path(&events), None);
}

#[test]
fn a_burst_of_writes_collapses_to_one_poll_result() {
    // Three coalesced events for the same watched file in one drain give
    // exactly one path; the debounce window itself is the outside
    // observer's timing contract.
    let mut w = FileWatcher::new(250).expect("creating the debounced watcher");
    w.tracker.insert(&"/shaders".to_owned(), &"a.frag".to_owned());
    let events = vec![
        event("/shaders/a.frag", "/shaders", "a.frag"),
        event("/shaders/a.frag", "/shaders", "a.frag"),
        event("/shaders/a.frag", "/shaders", "a.frag"),
    ];
    assert_eq!(
        w.last_watched_path(&events),
        Some("/shaders/a.frag".to_owned())
    );
}
