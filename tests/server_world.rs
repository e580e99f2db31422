use imm_sim::handshake::{C2SHandshakeStart, RoomAuthentication, S2CHandshakeResult};
use imm_sim::server::{
    C2SCommand, PlayerAvatarColor, ServerEvent, ServerWorld, SpawnRoll, SPAWN_HEIGHT_BITS,
};
use imm_sim::tracker::AvatarHandle;
use imm_sim::transform::{QuatBits, Transform, Vec3Bits, ONE_BITS};

fn request(name: &str, password: Option<&str>) -> C2SHandshakeStart {
    C2SHandshakeStart {
        display_name: name.to_string(),
        room_password: password.map(|p| p.to_string()),
    }
}

fn roll(x: f32, z: f32, r: u8, g: u8, b: u8) -> SpawnRoll {
    SpawnRoll { x: x.to_bits(), z: z.to_bits(), color: PlayerAvatarColor { r, g, b } }
}

fn reason(result: &S2CHandshakeResult) -> String {
    match result {
        S2CHandshakeResult::ConnectionRejected { reason } => reason.clone(),
        S2CHandshakeResult::ConnectionAccepted { client_id } => {
            panic!("accepted {client_id}")
        }
    }
}

fn open_world() -> ServerWorld {
    ServerWorld::new(RoomAuthentication::WithoutPassword)
}

#[test]
fn wrong_password_is_rejected_as_incorrect() {
    let mut world = ServerWorld::new(RoomAuthentication::WithPassword("abc".to_string()));
    let out = world.handle_handshake(1, &request("ann", Some("xyz")), roll(1.0, 2.0, 1, 2, 3));
    let text = reason(&out.response);
    assert!(text.contains("incorrect"));
    assert_eq!(text, "The password you gave is incorrect.");
    assert!(out.spawned.is_none());
    assert_eq!(world.track_count(), 0);
}

#[test]
fn missing_password_is_rejected_as_required() {
    let mut world = ServerWorld::new(RoomAuthentication::WithPassword("abc".to_string()));
    let out = world.handle_handshake(1, &request("ann", None), roll(1.0, 2.0, 1, 2, 3));
    let text = reason(&out.response);
    assert!(text.contains("required"));
    assert_eq!(text, "A password is required to join this server.");
    assert_eq!(world.track_count(), 0);
}

#[test]
fn right_password_proceeds_to_name_check() {
    let mut world = ServerWorld::new(RoomAuthentication::WithPassword("abc".to_string()));
    let first = world.handle_handshake(1, &request("ann", Some("abc")), roll(1.0, 2.0, 1, 2, 3));
    assert!(matches!(first.response, S2CHandshakeResult::ConnectionAccepted { client_id: 1 }));
    let second = world.handle_handshake(2, &request("ann", Some("abc")), roll(1.0, 2.0, 1, 2, 3));
    let text = reason(&second.response);
    assert!(text.contains("in use"));
    assert_eq!(text, "The requested display name `ann` is already in use on this server.");
}

#[test]
fn password_is_checked_before_the_name() {
    let mut world = ServerWorld::new(RoomAuthentication::WithPassword("abc".to_string()));
    world.handle_handshake(1, &request("ann", Some("abc")), roll(0.0, 0.0, 0, 0, 0));
    let out = world.handle_handshake(2, &request("ann", Some("xyz")), roll(0.0, 0.0, 0, 0, 0));
    assert_eq!(reason(&out.response), "The password you gave is incorrect.");
    let missing = world.handle_handshake(3, &request("ann", None), roll(0.0, 0.0, 0, 0, 0));
    assert!(reason(&missing.response).contains("required"));
}

#[test]
fn duplicate_names_first_wins_either_order() {
    for (a, b) in [(10u64, 20u64), (20u64, 10u64)] {
        let mut world = open_world();
        let first = world.handle_handshake(a, &request("zed", None), roll(0.0, 0.0, 9, 9, 9));
        let second = world.handle_handshake(b, &request("zed", None), roll(0.0, 0.0, 9, 9, 9));
        assert!(first.response.is_accepted());
        assert!(!second.response.is_accepted());
        assert!(reason(&second.response).contains("in use"));
        assert_eq!(world.tracker().id_from_display_name("zed"), Some(a));
        assert_eq!(world.track_count(), 1);
    }
}

#[test]
fn rejected_handshake_tracks_nothing() {
    let mut world = ServerWorld::new(RoomAuthentication::WithPassword("pw".to_string()));
    world.handle_connection_event(ServerEvent::ClientConnected { client_id: 5 });
    let before = world.track_count();
    let out = world.handle_handshake(5, &request("eve", Some("nope")), roll(3.0, 4.0, 1, 1, 1));
    assert!(!out.response.is_accepted());
    assert_eq!(world.track_count(), before);
    assert_eq!(world.avatar_count(), 0);
    assert!(world.avatar(5).is_none());
    assert!(world.is_awaiting(5));
}

#[test]
fn accepted_handshake_spawns_and_tracks() {
    let mut world = open_world();
    world.handle_handshake(0, &request("bob", None), roll(1.0, 1.0, 0, 0, 0));
    world.handle_connection_event(ServerEvent::ClientConnected { client_id: 7 });
    assert!(world.is_awaiting(7));
    let out = world.handle_handshake(7, &request("ann", None), roll(-3.5, 12.25, 10, 20, 30));
    assert!(matches!(out.response, S2CHandshakeResult::ConnectionAccepted { client_id: 7 }));
    assert!(!world.is_awaiting(7));
    let spawned = out.spawned.expect("announcement");
    assert_eq!(spawned.for_client_id, 7);
    assert_eq!(spawned.display_name, "ann");
    assert_eq!(spawned.initial_translation.x, (-3.5f32).to_bits());
    assert_eq!(spawned.initial_translation.y, 30.0f32.to_bits());
    assert_eq!(spawned.initial_translation.y, SPAWN_HEIGHT_BITS);
    assert_eq!(spawned.initial_translation.z, 12.25f32.to_bits());
    assert_eq!(spawned.initial_rotation, QuatBits::identity());
    assert_eq!(spawned.initial_color, PlayerAvatarColor { r: 10, g: 20, b: 30 });
    assert_eq!(world.track_count(), 2);
    assert_eq!(world.avatar_count(), 2);
    let avatar = world.avatar(7).expect("avatar");
    assert_eq!(avatar.display_name, "ann");
    assert_eq!(avatar.transform.scale, Vec3Bits { x: ONE_BITS, y: ONE_BITS, z: ONE_BITS });
    assert_eq!(avatar.replicated.translation, avatar.transform.translation);
}

#[test]
fn lookups_stay_consistent_until_disconnect() {
    let mut world = open_world();
    world.handle_handshake(1, &request("ann", None), roll(0.0, 0.0, 0, 0, 0));
    world.handle_handshake(2, &request("bob", None), roll(0.0, 0.0, 0, 0, 0));
    world.handle_command(2, C2SCommand::ChangeAvatarColor { r: 1, g: 1, b: 1 });
    world.handle_connection_event(ServerEvent::ClientDisconnected { client_id: 2 });
    world.mirror_transforms();
    let id = world.tracker().id_from_display_name("ann").expect("ann");
    assert_eq!(id, 1);
    assert_eq!(world.tracker().get_avatar(id), Some(AvatarHandle(1)));
    assert_eq!(world.tracker().get_display_name(1), Some("ann"));
    let gone = world.handle_connection_event(ServerEvent::ClientDisconnected { client_id: 1 });
    assert_eq!(gone, Some(AvatarHandle(1)));
    assert_eq!(world.tracker().id_from_display_name("ann"), None);
    assert_eq!(world.tracker().get_avatar(1), None);
}

#[test]
fn second_handshake_of_joined_connection_is_refused() {
    let mut world = open_world();
    world.handle_handshake(4, &request("ann", None), roll(0.0, 0.0, 0, 0, 0));
    let again = world.handle_handshake(4, &request("other", None), roll(0.0, 0.0, 0, 0, 0));
    assert_eq!(reason(&again.response), "This connection has already joined the server.");
    assert_eq!(world.avatar_count(), 1);
    assert_eq!(world.tracker().get_display_name(4), Some("ann"));
}

#[test]
fn disconnect_of_untracked_connection_is_no_error() {
    let mut world = open_world();
    world.handle_connection_event(ServerEvent::ClientConnected { client_id: 3 });
    let r = world.handle_connection_event(ServerEvent::ClientDisconnected { client_id: 3 });
    assert_eq!(r, None);
    assert!(!world.is_awaiting(3));
    assert_eq!(world.track_count(), 0);
}

#[test]
fn orphaned_command_and_input_are_discarded() {
    let mut world = open_world();
    world.handle_handshake(1, &request("ann", None), roll(0.0, 0.0, 5, 5, 5));
    world.handle_handshake(2, &request("bob", None), roll(0.0, 0.0, 6, 6, 6));
    world.handle_connection_event(ServerEvent::ClientDisconnected { client_id: 1 });
    let applied = world.handle_command(1, C2SCommand::ChangeAvatarColor { r: 0, g: 0, b: 0 });
    assert!(!applied);
    assert!(world.input_target(1).is_none());
    assert!(!world.write_transform(1, Transform {
        translation: Vec3Bits { x: 1, y: 2, z: 3 },
        rotation: QuatBits::identity(),
        scale: Vec3Bits::one(),
    }));
    assert_eq!(world.track_count(), 1);
    assert_eq!(world.avatar(2).expect("bob").color, PlayerAvatarColor { r: 6, g: 6, b: 6 });
    assert_eq!(world.tracker().id_from_display_name("bob"), Some(2));
}

#[test]
fn color_command_changes_only_its_avatar() {
    let mut world = open_world();
    world.handle_handshake(1, &request("ann", None), roll(0.0, 0.0, 5, 5, 5));
    world.handle_handshake(2, &request("bob", None), roll(0.0, 0.0, 6, 6, 6));
    assert!(world.handle_command(1, C2SCommand::ChangeAvatarColor { r: 200, g: 100, b: 50 }));
    assert_eq!(world.avatar(1).unwrap().color, PlayerAvatarColor { r: 200, g: 100, b: 50 });
    assert_eq!(world.avatar(2).unwrap().color, PlayerAvatarColor { r: 6, g: 6, b: 6 });
}

#[test]
fn input_target_resolves_avatar_and_rotation() {
    let mut world = open_world();
    world.handle_handshake(9, &request("ann", None), roll(0.0, 0.0, 0, 0, 0));
    let (handle, transform) = world.input_target(9).expect("tracked");
    assert_eq!(handle, AvatarHandle(9));
    assert_eq!(transform.rotation, QuatBits::identity());
}

#[test]
fn mirroring_copies_written_transform() {
    let mut world = open_world();
    world.handle_handshake(1, &request("ann", None), roll(0.0, 0.0, 0, 0, 0));
    let moved = Transform {
        translation: Vec3Bits { x: 1.5f32.to_bits(), y: (-0.0f32).to_bits(), z: f32::NAN.to_bits() },
        rotation: QuatBits { x: 0, y: 0.70710677f32.to_bits(), z: 0, w: 0.70710677f32.to_bits() },
        scale: Vec3Bits::one(),
    };
    assert!(world.write_transform(1, moved));
    assert_ne!(world.avatar(1).unwrap().replicated.translation, moved.translation);
    world.mirror_transforms();
    let avatar = world.avatar(1).unwrap();
    assert_eq!(avatar.replicated.translation, moved.translation);
    assert_eq!(avatar.replicated.rotation, moved.rotation);
    assert_eq!(avatar.replicated.scale, moved.scale);
}

#[test]
fn rolled_color_is_a_color() {
    let c = imm_sim::server::roll_color();
    let _ = (c.r, c.g, c.b);
}

#[test]
fn largest_identifier_and_input_batch() {
    let mut world = open_world();
    let out = world.handle_handshake(u64::MAX, &request("max", None), roll(0.0, 0.0, 0, 0, 0));
    assert!(matches!(out.response, S2CHandshakeResult::ConnectionAccepted { client_id: u64::MAX }));
    let routed = world.route_inputs(&vec![u64::MAX, 0, u64::MAX]);
    assert_eq!(routed.len(), 3);
    assert_eq!(routed[0].map(|(h, _)| h), Some(AvatarHandle(u64::MAX)));
    assert!(routed[1].is_none());
    assert_eq!(routed[2].map(|(h, _)| h), Some(AvatarHandle(u64::MAX)));
    assert!(world.route_inputs(&vec![]).is_empty());
}

#[test]
fn empty_name_is_rejected() {
    let mut world = open_world();
    let out = world.handle_handshake(1, &request("", None), roll(0.0, 0.0, 0, 0, 0));
    assert_eq!(reason(&out.response), "The display name must not be empty.");
    assert!(out.spawned.is_none());
    assert_eq!(world.track_count(), 0);
    let mut locked = ServerWorld::new(RoomAuthentication::WithPassword("abc".to_string()));
    let out = locked.handle_handshake(1, &request("", Some("xyz")), roll(0.0, 0.0, 0, 0, 0));
    assert!(reason(&out.response).contains("incorrect"));
}
