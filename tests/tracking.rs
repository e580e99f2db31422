use imm_sim::tracker::{str_eq, AvatarHandle, ConnectionTracker};

#[test]
fn track_then_lookup() {
    let mut t = ConnectionTracker::new();
    t.track_connection(11, AvatarHandle(100), "ann".to_string());
    t.track_connection(12, AvatarHandle(200), "bob".to_string());
    assert_eq!(t.track_count(), 2);
    assert_eq!(t.get_avatar(11), Some(AvatarHandle(100)));
    assert_eq!(t.get_display_name(12), Some("bob"));
    assert_eq!(t.id_from_display_name("ann"), Some(11));
    assert_eq!(t.id_from_display_name("carl"), None);
    assert_eq!(t.get_avatar(13), None);
}

#[test]
fn drop_twice_gives_some_then_none() {
    let mut t = ConnectionTracker::new();
    t.track_connection(1, AvatarHandle(10), "ann".to_string());
    t.track_connection(2, AvatarHandle(20), "bob".to_string());
    let first = t.drop_connection(1);
    assert_eq!(first, Some((AvatarHandle(10), "ann".to_string())));
    let second = t.drop_connection(1);
    assert_eq!(second, None);
    assert_eq!(t.track_count(), 1);
    assert_eq!(t.get_avatar(2), Some(AvatarHandle(20)));
    assert_eq!(t.id_from_display_name("bob"), Some(2));
    assert_eq!(t.id_from_display_name("ann"), None);
}

#[test]
fn drop_of_never_tracked_is_none() {
    let mut t = ConnectionTracker::new();
    assert_eq!(t.drop_connection(42), None);
    assert_eq!(t.track_count(), 0);
}

#[test]
fn name_free_again_after_drop() {
    let mut t = ConnectionTracker::new();
    t.track_connection(1, AvatarHandle(1), "ann".to_string());
    t.drop_connection(1);
    t.track_connection(2, AvatarHandle(2), "ann".to_string());
    assert_eq!(t.id_from_display_name("ann"), Some(2));
}

#[test]
fn string_equality_by_characters() {
    assert!(str_eq("", ""));
    assert!(str_eq("héllo", "héllo"));
    assert!(!str_eq("abc", "abd"));
    assert!(!str_eq("abc", "ab"));
}
