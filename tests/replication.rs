use imm_sim::client::{ClientWorld, ReplicatedAvatar};
use imm_sim::handshake::{C2SHandshakeStart, RoomAuthentication};
use imm_sim::protocol::{
    generate_collision_layers, replicated_components, ChannelKind, CoLayer, Direction,
    ImmSimServerPlugin, MessageKind, ServerRunMode, PROTOCOL_ID_V0_1,
};
use imm_sim::server::{PlayerAvatarColor, ServerWorld, SpawnRoll};
use imm_sim::transform::{QuatBits, ReplicatedTransform, Transform, Vec3Bits};

#[test]
fn spawned_transform_reaches_client_render_bit_for_bit() {
    let mut server = ServerWorld::new(RoomAuthentication::WithoutPassword);
    let roll = SpawnRoll {
        x: (-19.999f32).to_bits(),
        z: 7.25f32.to_bits(),
        color: PlayerAvatarColor { r: 1, g: 2, b: 3 },
    };
    let out = server.handle_handshake(
        3,
        &C2SHandshakeStart { display_name: "ann".to_string(), room_password: None },
        roll,
    );
    let cmd = out.spawned.unwrap();
    server.mirror_transforms();
    let authoritative = server.avatar(3).unwrap();
    let mut client = ClientWorld::new();
    client.receive_replica(3, "ann".to_string(), authoritative.color, authoritative.replicated);
    client.spawn_player(&cmd);
    client.mirror_replicated_transform();
    let seen = client.avatars[0].render.unwrap();
    assert_eq!(seen, authoritative.transform);
    assert_eq!(seen.translation.x.to_le_bytes(), (-19.999f32).to_bits().to_le_bytes());
}

#[test]
fn conversions_keep_every_bit() {
    let t = Transform {
        translation: Vec3Bits { x: f32::NAN.to_bits(), y: (-0.0f32).to_bits(), z: 1 },
        rotation: QuatBits { x: 2, y: 3, z: 4, w: 5 },
        scale: Vec3Bits { x: 6, y: 7, z: 8 },
    };
    let r = ReplicatedTransform::from(t);
    assert_eq!(r.translation, t.translation);
    assert_eq!(Transform::from(r), t);
}

#[test]
fn client_mirror_skips_unrendered() {
    let mut client = ClientWorld::new();
    let rep = ReplicatedTransform {
        translation: Vec3Bits { x: 1, y: 2, z: 3 },
        rotation: QuatBits::identity(),
        scale: Vec3Bits::one(),
    };
    client.receive_replica(5, "bob".to_string(), PlayerAvatarColor { r: 0, g: 0, b: 0 }, rep);
    client.mirror_replicated_transform();
    assert!(client.avatars[0].render.is_none());
    client.spawn_player_mesh();
    let placed = client.avatars[0].render.unwrap();
    assert_eq!(placed.translation, rep.translation);
    assert_eq!(placed.scale, Vec3Bits::one());
    let moved = ReplicatedTransform { translation: Vec3Bits { x: 9, y: 9, z: 9 }, ..rep };
    client.receive_replica(5, "bob".to_string(), PlayerAvatarColor { r: 0, g: 0, b: 0 }, moved);
    assert_eq!(client.avatars.len(), 1);
    client.mirror_replicated_transform();
    assert_eq!(client.avatars[0].render.unwrap().translation, Vec3Bits { x: 9, y: 9, z: 9 });
    assert_eq!(client.owned_avatar(5), Some(0));
    assert_eq!(client.owned_avatar(6), None);
}

#[test]
fn spawn_command_places_only_its_owner() {
    let mut client = ClientWorld::new();
    let rep = ReplicatedTransform {
        translation: Vec3Bits { x: 0, y: 0, z: 0 },
        rotation: QuatBits::identity(),
        scale: Vec3Bits::one(),
    };
    client.avatars.push(ReplicatedAvatar {
        owner: 1,
        display_name: "a".to_string(),
        color: PlayerAvatarColor { r: 0, g: 0, b: 0 },
        replicated: rep,
        render: None,
    });
    client.avatars.push(ReplicatedAvatar {
        owner: 2,
        display_name: "b".to_string(),
        color: PlayerAvatarColor { r: 0, g: 0, b: 0 },
        replicated: rep,
        render: None,
    });
    let cmd = imm_sim::server::S2CSpawnPlayerCommand {
        for_client_id: 2,
        display_name: "b".to_string(),
        initial_translation: Vec3Bits { x: 4, y: 5, z: 6 },
        initial_rotation: QuatBits::identity(),
        initial_color: PlayerAvatarColor { r: 1, g: 1, b: 1 },
    };
    client.spawn_player(&cmd);
    assert!(client.avatars[0].render.is_none());
    assert_eq!(client.avatars[1].render.unwrap().translation, Vec3Bits { x: 4, y: 5, z: 6 });
}

#[test]
fn channels_and_directions() {
    assert_eq!(MessageKind::InputSample.channel(), ChannelKind::Unreliable);
    assert_eq!(MessageKind::JoinRequest.channel(), ChannelKind::Ordered);
    assert_eq!(MessageKind::JoinResult.channel(), ChannelKind::Ordered);
    assert_eq!(MessageKind::AvatarSpawned.channel(), ChannelKind::Ordered);
    assert_eq!(MessageKind::AvatarCommand.channel(), ChannelKind::Ordered);
    assert_eq!(MessageKind::JoinResult.direction(), Direction::ServerToClient);
    assert_eq!(MessageKind::InputSample.direction(), Direction::ClientToServer);
    assert_eq!(replicated_components().len(), 4);
    assert_eq!(PROTOCOL_ID_V0_1, 1_542_994_232_742);
}

#[test]
fn run_modes() {
    assert!(ImmSimServerPlugin::standalone().provides_base_runtime());
    assert!(!ImmSimServerPlugin::alongside_client().provides_base_runtime());
    assert_eq!(ImmSimServerPlugin::alongside_client().run_mode(), ServerRunMode::WithClient);
}

#[test]
fn player_collision_layers() {
    let (member, filters) = generate_collision_layers();
    assert_eq!(member, CoLayer::Player);
    assert_eq!(filters, vec![CoLayer::Player, CoLayer::Environment, CoLayer::Pickup]);
}
