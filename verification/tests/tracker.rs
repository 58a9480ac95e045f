use shader_playground::watch_tracker::WatchTracker;

fn s(text: &str) -> String {
    text.to_owned()
}

#[test]
fn first_file_of_a_directory_subscribes_it() {
    let mut t = WatchTracker::new();
    assert!(t.insert(&s("/shaders"), &s("a.frag")));
    assert!(t.dir_subscribed(&s("/shaders")));
    assert!(t.is_watched(&s("/shaders"), &s("a.frag")));
}

#[test]
fn second_file_of_same_directory_does_not_resubscribe() {
    let mut t = WatchTracker::new();
    assert!(t.insert(&s("/shaders"), &s("a.frag")));
    assert!(!t.insert(&s("/shaders"), &s("b.frag")));
    assert!(t.is_watched(&s("/shaders"), &s("a.frag")));
    assert!(t.is_watched(&s("/shaders"), &s("b.frag")));
}

#[test]
fn duplicate_pair_is_not_recorded_twice() {
    let mut t = WatchTracker::new();
    assert!(t.insert(&s("/shaders"), &s("a.frag")));
    assert!(!t.insert(&s("/shaders"), &s("a.frag")));
    assert!(t.remove(&s("/shaders"), &s("a.frag")));
    assert!(!t.is_watched(&s("/shaders"), &s("a.frag")));
    assert!(!t.dir_subscribed(&s("/shaders")));
}

#[test]
fn removing_last_file_unsubscribes_directory() {
    let mut t = WatchTracker::new();
    t.insert(&s("/shaders"), &s("a.frag"));
    t.insert(&s("/shaders"), &s("b.frag"));
    assert!(!t.remove(&s("/shaders"), &s("a.frag")));
    assert!(t.dir_subscribed(&s("/shaders")));
    assert!(t.remove(&s("/shaders"), &s("b.frag")));
    assert!(!t.dir_subscribed(&s("/shaders")));
}

#[test]
fn removing_unknown_pair_changes_nothing() {
    let mut t = WatchTracker::new();
    t.insert(&s("/shaders"), &s("a.frag"));
    assert!(!t.remove(&s("/shaders"), &s("other.frag")));
    assert!(!t.remove(&s("/elsewhere"), &s("a.frag")));
    assert!(t.is_watched(&s("/shaders"), &s("a.frag")));
}

#[test]
fn watching_two_directories_subscribes_both() {
    let mut t = WatchTracker::new();
    assert!(t.insert(&s("/a"), &s("x.frag")));
    assert!(t.insert(&s("/b"), &s("y.frag")));
    assert!(t.dir_subscribed(&s("/a")));
    assert!(t.dir_subscribed(&s("/b")));
}

#[test]
fn reset_then_watch_leaves_only_new_directory() {
    let mut t = WatchTracker::new();
    t.insert(&s("/a"), &s("x.frag"));
    t.insert(&s("/b"), &s("y.frag"));
    let dirs = t.drain_all();
    assert_eq!(dirs, vec![s("/a"), s("/b")]);
    assert!(t.insert(&s("/b"), &s("y.frag")));
    assert!(!t.dir_subscribed(&s("/a")));
    assert!(t.dir_subscribed(&s("/b")));
}

#[test]
fn drain_lists_each_directory_once() {
    let mut t = WatchTracker::new();
    t.insert(&s("/a"), &s("x.frag"));
    t.insert(&s("/a"), &s("y.frag"));
    t.insert(&s("/b"), &s("z.frag"));
    let dirs = t.drain_all();
    assert_eq!(dirs, vec![s("/a"), s("/b")]);
    assert!(!t.dir_subscribed(&s("/a")));
    assert!(!t.dir_subscribed(&s("/b")));
}
