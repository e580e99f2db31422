//! The server's authoritative world: the tracked connections, their avatars,
//! and the steps of a tick that read or change them.
use vstd::prelude::*;
use crate::handshake::{
    answers, authenticate, opt_view, verdict, C2SHandshakeStart, HandshakeVerdict,
    RoomAuthentication, S2CHandshakeResult,
};
use crate::tracker::{name_in_use, AvatarHandle, ConnectionTracker, TrackedView};
use crate::transform::{replicate, QuatBits, ReplicatedTransform, Transform, Vec3Bits, ONE_BITS, ZERO_BITS};

verus! {

broadcast use vstd::std_specs::btree::group_btree_axioms;

/// Bit pattern of the float `30.0`, the height at which avatars are dropped in.
pub const SPAWN_HEIGHT_BITS: u32 = 0x41F0_0000;

/// The tint of an avatar, as sRGB bytes.
#[derive(Clone, Copy, Debug, PartialEq, Eq, Structural)]
pub struct PlayerAvatarColor {
    pub r: u8,
    pub g: u8,
    pub b: u8,
}

/// A client's command on its own avatar, sent on the ordered channel.
#[derive(Clone, Copy, Debug, PartialEq, Eq, Structural)]
pub enum C2SCommand {
    ChangeAvatarColor { r: u8, g: u8, b: u8 },
}

/// Sent to every client when an avatar joins the world.
pub struct S2CSpawnPlayerCommand {
    pub for_client_id: u64,
    pub display_name: String,
    pub initial_translation: Vec3Bits,
    pub initial_rotation: QuatBits,
    pub initial_color: PlayerAvatarColor,
}

/// Transport notifications about connections.
#[derive(Clone, Copy, Debug, PartialEq, Eq, Structural)]
pub enum ServerEvent {
    ClientConnected { client_id: u64 },
    ClientDisconnected { client_id: u64 },
}

/// The random draws that go with an accepted join: the horizontal spawn
/// coordinates (float bit patterns) and the tint.
#[derive(Clone, Copy, Debug, PartialEq, Eq, Structural)]
pub struct SpawnRoll {
    pub x: u32,
    pub z: u32,
    pub color: PlayerAvatarColor,
}

/// What a join request produces: the answer to the requester, and on
/// acceptance the spawn announcement for every other client.
pub struct HandshakeOutcome {
    pub response: S2CHandshakeResult,
    pub spawned: Option<S2CSpawnPlayerCommand>,
}

/// An avatar in the server's world. Its handle is its owner's connection
/// identifier: a connection has at most one avatar.
pub struct Avatar {
    pub owner: u64,
    pub display_name: String,
    pub color: PlayerAvatarColor,
    pub transform: Transform,
    pub replicated: ReplicatedTransform,
}

/// What an avatar holds, as mathematical values.
pub struct AvatarView {
    pub name: Seq<char>,
    pub color: PlayerAvatarColor,
    pub transform: Transform,
    pub replicated: ReplicatedTransform,
}

impl View for Avatar {
    type V = AvatarView;

    open spec fn view(&self) -> AvatarView {
        AvatarView {
            name: self.display_name@,
            color: self.color,
            transform: self.transform,
            replicated: self.replicated,
        }
    }
}

/// Connections that reached the transport and have not completed a handshake.
pub struct AwaitingHandshakes {
    set: std::collections::BTreeSet<u64>,
}

impl View for AwaitingHandshakes {
    type V = Set<u64>;

    closed spec fn view(&self) -> Set<u64> {
        self.set@
    }
}

impl AwaitingHandshakes {
    pub fn new() -> (r: AwaitingHandshakes)
        ensures
            r@ == Set::<u64>::empty(),
    {
        AwaitingHandshakes { set: std::collections::BTreeSet::new() }
    }

    pub fn insert(&mut self, id: u64)
        ensures
            final(self)@ == old(self)@.insert(id),
    {
        self.set.insert(id);
    }

    pub fn remove(&mut self, id: u64)
        ensures
            final(self)@ == old(self)@.remove(id),
    {
        self.set.remove(&id);
    }

    pub fn contains(&self, id: u64) -> (r: bool)
        ensures
            r == self@.contains(id),
    {
        self.set.contains(&id)
    }
}

/// The server's world as mathematical values.
pub struct WorldView {
    pub required_password: Option<Seq<char>>,
    pub awaiting: Set<u64>,
    pub joined: Map<u64, TrackedView>,
    pub avatars: Map<u64, AvatarView>,
}

/// The server's authoritative world.
pub struct ServerWorld {
    auth: RoomAuthentication,
    awaiting: AwaitingHandshakes,
    tracker: ConnectionTracker,
    avatars: Vec<Avatar>,
    avatar_model: Ghost<Map<u64, AvatarView>>,
}

impl View for ServerWorld {
    type V = WorldView;

    closed spec fn view(&self) -> WorldView {
        WorldView {
            required_password: self.auth.required(),
            awaiting: self.awaiting@,
            joined: self.tracker@,
            avatars: self.avatar_model@,
        }
    }
}

/// The translation at which an avatar is dropped in.
pub open spec fn spawn_translation(roll: SpawnRoll) -> Vec3Bits {
    Vec3Bits { x: roll.x, y: SPAWN_HEIGHT_BITS, z: roll.z }
}

/// The identity rotation.
pub open spec fn identity_rotation() -> QuatBits {
    QuatBits { x: ZERO_BITS, y: ZERO_BITS, z: ZERO_BITS, w: ONE_BITS }
}

/// The transform of an avatar as the spawner writes it: the announced
/// translation and rotation, unit scale.
pub open spec fn spawn_transform(translation: Vec3Bits, rotation: QuatBits) -> Transform {
    Transform {
        translation,
        rotation,
        scale: Vec3Bits { x: ONE_BITS, y: ONE_BITS, z: ONE_BITS },
    }
}

/// A newly spawned avatar: its authoritative and replicated transforms agree.
pub open spec fn spawned_avatar(
    name: Seq<char>,
    color: PlayerAvatarColor,
    translation: Vec3Bits,
    rotation: QuatBits,
) -> AvatarView {
    AvatarView {
        name,
        color,
        transform: spawn_transform(translation, rotation),
        replicated: replicate(spawn_transform(translation, rotation)),
    }
}

/// The world after the spawner adds an avatar for `id` and the tracker
/// registers it.
pub open spec fn spawn_view(
    v: WorldView,
    id: u64,
    name: Seq<char>,
    color: PlayerAvatarColor,
    translation: Vec3Bits,
    rotation: QuatBits,
) -> WorldView {
    WorldView {
        joined: v.joined.insert(id, (AvatarHandle(id), name)),
        avatars: v.avatars.insert(id, spawned_avatar(name, color, translation, rotation)),
        ..v
    }
}

/// The verdict on a join request in world `v`.
pub open spec fn verdict_in(
    v: WorldView,
    id: u64,
    name: Seq<char>,
    password: Option<Seq<char>>,
) -> HandshakeVerdict {
    verdict(
        v.required_password,
        password,
        name,
        name_in_use(v.joined, name),
        v.joined.contains_key(id),
    )
}

/// The world after a join request: unchanged on rejection; on acceptance the
/// connection stops waiting and gets its avatar and its tracker entry.
pub open spec fn handshake_view(
    v: WorldView,
    id: u64,
    name: Seq<char>,
    password: Option<Seq<char>>,
    roll: SpawnRoll,
) -> WorldView {
    if verdict_in(v, id, name, password) == HandshakeVerdict::Accept {
        spawn_view(
            WorldView { awaiting: v.awaiting.remove(id), ..v },
            id,
            name,
            roll.color,
            spawn_translation(roll),
            identity_rotation(),
        )
    } else {
        v
    }
}

/// The world after a connect notification: the connection awaits its handshake.
pub open spec fn connect_view(v: WorldView, id: u64) -> WorldView {
    WorldView { awaiting: v.awaiting.insert(id), ..v }
}

/// The world after a disconnect notification: the connection, its tracker
/// entry and its avatar are gone. For an untracked connection only the
/// waiting mark goes.
pub open spec fn disconnect_view(v: WorldView, id: u64) -> WorldView {
    WorldView {
        awaiting: v.awaiting.remove(id),
        joined: v.joined.remove(id),
        avatars: v.avatars.remove(id),
        ..v
    }
}

/// The world after a connection event.
pub open spec fn event_view(v: WorldView, e: ServerEvent) -> WorldView {
    match e {
        ServerEvent::ClientConnected { client_id } => connect_view(v, client_id),
        ServerEvent::ClientDisconnected { client_id } => disconnect_view(v, client_id),
    }
}

/// The world after a command from `id`: a tracked connection's avatar takes
/// the new tint; a command from any other connection is discarded.
pub open spec fn command_view(v: WorldView, id: u64, cmd: C2SCommand) -> WorldView {
    if v.joined.contains_key(id) {
        match cmd {
            C2SCommand::ChangeAvatarColor { r, g, b } => WorldView {
                avatars: v.avatars.insert(
                    id,
                    AvatarView { color: PlayerAvatarColor { r, g, b }, ..v.avatars[id] },
                ),
                ..v
            },
        }
    } else {
        v
    }
}

/// The world after the simulation writes the authoritative transform of
/// `id`'s avatar; nothing changes for an untracked connection.
pub open spec fn write_transform_view(v: WorldView, id: u64, t: Transform) -> WorldView {
    if v.joined.contains_key(id) {
        WorldView { avatars: v.avatars.insert(id, AvatarView { transform: t, ..v.avatars[id] }), ..v }
    } else {
        v
    }
}

/// The world after the server's mirroring step: every replicated transform
/// equals its authoritative transform.
pub open spec fn mirror_view(v: WorldView) -> WorldView {
    WorldView {
        avatars: v.avatars.map_values(
            |a: AvatarView| AvatarView { replicated: replicate(a.transform), ..a },
        ),
        ..v
    }
}

/// The avatar that input from `id` moves, with its authoritative transform.
pub open spec fn input_target_view(v: WorldView, id: u64) -> Option<(AvatarHandle, Transform)> {
    if v.joined.contains_key(id) {
        Some((AvatarHandle(id), v.avatars[id].transform))
    } else {
        None
    }
}

/// Draws one byte.
///
/// Relies on rand::random (thread-local generator); any byte may come back.
#[verifier::external_body]
fn random_byte() -> (r: u8) {
    rand::random::<u8>()
}

/// Draws a uniformly random tint.
pub fn roll_color() -> (c: PlayerAvatarColor) {
    let r = random_byte();
    let g = random_byte();
    let b = random_byte();
    PlayerAvatarColor { r, g, b }
}

impl ServerWorld {
    /// The world's consistency: one avatar per tracked connection, none for
    /// any other, and the tracker and the avatars agree on names.
    pub closed spec fn wf(&self) -> bool {
        &&& self.tracker.wf()
        &&& self.avatars@.len() == self.tracker@.len()
        &&& forall|i: int|
            #![trigger self.avatars@[i]]
            0 <= i < self.avatars@.len() ==> self.avatar_model@.contains_key(self.avatars@[i].owner)
                && self.avatar_model@[self.avatars@[i].owner] == self.avatars@[i]@
        &&& forall|id: u64|
            #[trigger] self.avatar_model@.contains_key(id) ==> exists|i: int|
                0 <= i < self.avatars@.len() && #[trigger] self.avatars@[i].owner == id
        &&& forall|i: int, j: int|
            #![trigger self.avatars@[i].owner, self.avatars@[j].owner]
            0 <= i < self.avatars@.len() && 0 <= j < self.avatars@.len() && i != j
                ==> self.avatars@[i].owner != self.avatars@[j].owner
        &&& self.avatar_model@.dom() == self.tracker@.dom()
        &&& forall|id: u64|
            #[trigger] self.tracker@.contains_key(id) ==> self.tracker@[id] == (
                AvatarHandle(id),
                self.avatar_model@[id].name,
            )
    }

    /// What a well-formed world's view satisfies.
    pub proof fn lemma_wf_view(&self)
        requires
            self.wf(),
        ensures
            world_consistent(self@),
    {
        self.tracker.lemma_wf_names_unique();
    }

    /// A freshly started server: no connections, no avatars.
    pub fn new(auth: RoomAuthentication) -> (r: ServerWorld)
        ensures
            r.wf(),
            r@.required_password == auth.required(),
            r@.awaiting == Set::<u64>::empty(),
            r@.joined == Map::<u64, TrackedView>::empty(),
            r@.avatars == Map::<u64, AvatarView>::empty(),
    {
        ServerWorld {
            auth,
            awaiting: AwaitingHandshakes::new(),
            tracker: ConnectionTracker::new(),
            avatars: Vec::new(),
            avatar_model: Ghost(Map::empty()),
        }
    }

    /// The connection tracker.
    pub fn tracker(&self) -> (r: &ConnectionTracker)
        requires
            self.wf(),
        ensures
            r.wf(),
            r@ == self@.joined,
    {
        &self.tracker
    }

    /// Number of tracked connections.
    pub fn track_count(&self) -> (r: usize)
        requires
            self.wf(),
        ensures
            r == self@.joined.len(),
    {
        self.tracker.track_count()
    }

    /// Number of avatars in the world.
    pub fn avatar_count(&self) -> (r: usize)
        requires
            self.wf(),
        ensures
            r == self@.avatars.len(),
    {
        proof {
            self.lemma_avatar_count();
        }
        self.avatars.len()
    }

    proof fn lemma_avatar_count(&self)
        requires
            self.wf(),
        ensures
            self@.avatars.len() == self.avatars@.len(),
    {
        self.tracker.lemma_wf_names_unique();
    }

    /// Whether `id` is waiting for its handshake.
    pub fn is_awaiting(&self, id: u64) -> (r: bool)
        ensures
            r == self@.awaiting.contains(id),
    {
        self.awaiting.contains(id)
    }

    /// Position of the avatar owned by `id`.
    fn find_avatar(&self, id: u64) -> (r: Option<usize>)
        requires
            self.wf(),
        ensures
            match r {
                Some(i) => i < self.avatars@.len() && self.avatars@[i as int].owner == id,
                None => !self@.avatars.contains_key(id),
            },
    {
        let mut i: usize = 0;
        while i < self.avatars.len()
            invariant
                self.wf(),
                i <= self.avatars@.len(),
                forall|k: int| 0 <= k < i ==> #[trigger] self.avatars@[k].owner != id,
            decreases self.avatars@.len() - i,
        {
            if self.avatars[i].owner == id {
                return Some(i);
            }
            i = i + 1;
        }
        None
    }

    /// A copy of the avatar owned by `id`, if any.
    pub fn avatar(&self, id: u64) -> (r: Option<Avatar>)
        requires
            self.wf(),
        ensures
            match r {
                Some(a) => self@.avatars.contains_key(id) && a.owner == id && a@
                    == self@.avatars[id],
                None => !self@.avatars.contains_key(id),
            },
    {
        match self.find_avatar(id) {
            Some(i) => {
                let a = &self.avatars[i];
                Some(
                    Avatar {
                        owner: a.owner,
                        display_name: a.display_name.clone(),
                        color: a.color,
                        transform: a.transform,
                        replicated: a.replicated,
                    },
                )
            },
            None => None,
        }
    }

    /// Removes the avatar owned by `id` and its tracker entry.
    fn despawn(&mut self, id: u64) -> (r: Option<AvatarHandle>)
        requires
            old(self).wf(),
        ensures
            final(self).wf(),
            final(self)@ == (WorldView {
                joined: old(self)@.joined.remove(id),
                avatars: old(self)@.avatars.remove(id),
                ..old(self)@
            }),
            r == (if old(self)@.joined.contains_key(id) {
                Some(AvatarHandle(id))
            } else {
                None
            }),
    {
        proof {
            self.tracker.lemma_wf_names_unique();
        }
        match self.find_avatar(id) {
            None => {
                proof {
                    assert(!self.tracker@.contains_key(id));
                    assert(self.avatar_model@.remove(id) =~= self.avatar_model@);
                    assert(self.tracker@.remove(id) =~= self.tracker@);
                }
                None
            },
            Some(i) => {
                let ghost old_tracker = self.tracker@;
                let _dropped = self.tracker.drop_connection(id);
                let ghost old_avatars = self.avatars@;
                let ghost m = self.avatar_model@;
                let _gone = self.avatars.remove(i);
                self.avatar_model = Ghost(m.remove(id));
                proof {
                    assert forall|k: int|
                        #![trigger self.avatars@[k]]
                        0 <= k < self.avatars@.len() implies self.avatar_model@.contains_key(
                            self.avatars@[k].owner,
                        ) && self.avatar_model@[self.avatars@[k].owner] == self.avatars@[k]@ by {
                        let ok = if k < i { k } else { k + 1 };
                        assert(self.avatars@[k] == old_avatars[ok]);
                        assert(old_avatars[ok].owner != old_avatars[i as int].owner);
                    }
                    assert forall|oid: u64| #[trigger]
                        self.avatar_model@.contains_key(oid) implies exists|k: int|
                        0 <= k < self.avatars@.len() && #[trigger] self.avatars@[k].owner == oid by {
                        assert(m.contains_key(oid));
                        let j = choose|j: int|
                            0 <= j < old_avatars.len() && #[trigger] old_avatars[j].owner == oid;
                        if j < i {
                            assert(self.avatars@[j] == old_avatars[j]);
                        } else {
                            assert(j != i);
                            assert(self.avatars@[j - 1] == old_avatars[j]);
                        }
                    }
                    assert forall|a: int, b: int|
                        #![trigger self.avatars@[a].owner, self.avatars@[b].owner]
                        0 <= a < self.avatars@.len() && 0 <= b < self.avatars@.len() && a != b
                            implies self.avatars@[a].owner != self.avatars@[b].owner by {
                        let oa = if a < i { a } else { a + 1 };
                        let ob = if b < i { b } else { b + 1 };
                        assert(self.avatars@[a] == old_avatars[oa]);
                        assert(self.avatars@[b] == old_avatars[ob]);
                    }
                    assert(self.avatar_model@.dom() =~= self.tracker@.dom());
                    assert(self.tracker@ == old_tracker.remove(id));
                    assert forall|oid: u64| #[trigger] self.tracker@.contains_key(oid) implies self.tracker@[oid] == (
                        AvatarHandle(oid),
                        self.avatar_model@[oid].name,
                    ) by {
                        assert(old_tracker.contains_key(oid));
                    }
                }
                Some(AvatarHandle(id))
            },
        }
    }

    /// Handles a transport notification. A connect marks the connection as
    /// waiting for its handshake; a disconnect removes its tracker entry and
    /// its avatar, whose handle is returned (`None` for a connection that
    /// never completed a handshake, which is no error).
    pub fn handle_connection_event(&mut self, event: ServerEvent) -> (r: Option<AvatarHandle>)
        requires
            old(self).wf(),
        ensures
            final(self).wf(),
            final(self)@ == event_view(old(self)@, event),
            r == (match event {
                ServerEvent::ClientDisconnected { client_id } => if old(
                    self,
                )@.joined.contains_key(client_id) {
                    Some(AvatarHandle(client_id))
                } else {
                    None
                },
                ServerEvent::ClientConnected { .. } => None,
            }),
    {
        match event {
            ServerEvent::ClientConnected { client_id } => {
                self.awaiting.insert(client_id);
                None
            },
            ServerEvent::ClientDisconnected { client_id } => {
                self.awaiting.remove(client_id);
                self.despawn(client_id)
            },
        }
    }

    /// The avatar spawner: adds the avatar that `cmd` announces, with its
    /// authoritative and replicated transforms, and registers it in the
    /// tracker. The caller has accepted the connection's handshake.
    pub fn spawn_player_server(&mut self, cmd: &S2CSpawnPlayerCommand) -> (r: AvatarHandle)
        requires
            old(self).wf(),
            !old(self)@.joined.contains_key(cmd.for_client_id),
            !name_in_use(old(self)@.joined, cmd.display_name@),
        ensures
            final(self).wf(),
            r == AvatarHandle(cmd.for_client_id),
            final(self)@ == spawn_view(
                old(self)@,
                cmd.for_client_id,
                cmd.display_name@,
                cmd.initial_color,
                cmd.initial_translation,
                cmd.initial_rotation,
            ),
    {
        let id = cmd.for_client_id;
        let handle = AvatarHandle(id);
        let transform = Transform {
            translation: cmd.initial_translation,
            rotation: cmd.initial_rotation,
            scale: Vec3Bits::one(),
        };
        let avatar = Avatar {
            owner: id,
            display_name: cmd.display_name.clone(),
            color: cmd.initial_color,
            transform,
            replicated: ReplicatedTransform::from(transform),
        };
        let ghost av = avatar@;
        let ghost old_avatars = self.avatars@;
        let ghost m = self.avatar_model@;
        let ghost old_tracker = self.tracker@;
        proof {
            self.tracker.lemma_wf_names_unique();
        }
        assert(!m.contains_key(id));
        self.avatars.push(avatar);
        self.avatar_model = Ghost(m.insert(id, av));
        self.tracker.track_connection(id, handle, cmd.display_name.clone());
        proof {
            let n = old_avatars.len() as int;
            assert(self.avatars@[n].owner == id);
            assert forall|k: int|
                #![trigger self.avatars@[k]]
                0 <= k < self.avatars@.len() implies self.avatar_model@.contains_key(
                    self.avatars@[k].owner,
                ) && self.avatar_model@[self.avatars@[k].owner] == self.avatars@[k]@ by {
                if k < n {
                    assert(self.avatars@[k] == old_avatars[k]);
                    assert(m.contains_key(old_avatars[k].owner));
                }
            }
            assert forall|oid: u64| #[trigger] self.avatar_model@.contains_key(oid) implies exists|
                k: int,
            | 0 <= k < self.avatars@.len() && #[trigger] self.avatars@[k].owner == oid by {
                if oid != id {
                    assert(m.contains_key(oid));
                    let j = choose|j: int|
                        0 <= j < old_avatars.len() && #[trigger] old_avatars[j].owner == oid;
                    assert(self.avatars@[j] == old_avatars[j]);
                }
            }
            assert forall|a: int, b: int|
                #![trigger self.avatars@[a].owner, self.avatars@[b].owner]
                0 <= a < self.avatars@.len() && 0 <= b < self.avatars@.len() && a != b
                    implies self.avatars@[a].owner != self.avatars@[b].owner by {
                if a < n && b < n {
                    assert(self.avatars@[a] == old_avatars[a]);
                    assert(self.avatars@[b] == old_avatars[b]);
                } else if a < n {
                    assert(self.avatars@[a] == old_avatars[a]);
                    assert(m.contains_key(old_avatars[a].owner));
                } else if b < n {
                    assert(self.avatars@[b] == old_avatars[b]);
                    assert(m.contains_key(old_avatars[b].owner));
                }
            }
            assert(self.avatar_model@.dom() =~= self.tracker@.dom());
            assert(self.tracker@.len() == old_tracker.len() + 1);
            assert forall|oid: u64| #[trigger] self.tracker@.contains_key(oid) implies self.tracker@[oid] == (
                AvatarHandle(oid),
                self.avatar_model@[oid].name,
            ) by {
                if oid != id {
                    assert(old_tracker.contains_key(oid));
                }
            }
            assert(av == spawned_avatar(
                cmd.display_name@,
                cmd.initial_color,
                cmd.initial_translation,
                cmd.initial_rotation,
            ));
        }
        handle
    }

    /// Answers a join request from `client_id`. A rejected request changes
    /// nothing. An accepted one stops the connection waiting, spawns its
    /// avatar at the rolled position with the rolled tint, tracks it, and
    /// yields the announcement for the other clients.
    pub fn handle_handshake(
        &mut self,
        client_id: u64,
        request: &C2SHandshakeStart,
        roll: SpawnRoll,
    ) -> (r: HandshakeOutcome)
        requires
            old(self).wf(),
        ensures
            final(self).wf(),
            final(self)@ == handshake_view(
                old(self)@,
                client_id,
                request.display_name@,
                opt_view(request.room_password),
                roll,
            ),
            answers(
                r.response,
                verdict_in(
                    old(self)@,
                    client_id,
                    request.display_name@,
                    opt_view(request.room_password),
                ),
                client_id,
                request.display_name@,
            ),
            r.spawned.is_some() == (verdict_in(
                old(self)@,
                client_id,
                request.display_name@,
                opt_view(request.room_password),
            ) == HandshakeVerdict::Accept),
            r.spawned.is_some() ==> {
                let s = r.spawned.unwrap();
                &&& s.for_client_id == client_id
                &&& s.display_name@ == request.display_name@
                &&& s.initial_translation == spawn_translation(roll)
                &&& s.initial_rotation == identity_rotation()
                &&& s.initial_color == roll.color
            },
    {
        let v = authenticate(&self.auth, &self.tracker, client_id, request);
        let response = v.response(client_id, request.display_name.as_str());
        if v != HandshakeVerdict::Accept {
            return HandshakeOutcome { response, spawned: None };
        }
        self.awaiting.remove(client_id);
        let cmd = S2CSpawnPlayerCommand {
            for_client_id: client_id,
            display_name: request.display_name.clone(),
            initial_translation: Vec3Bits { x: roll.x, y: SPAWN_HEIGHT_BITS, z: roll.z },
            initial_rotation: QuatBits::identity(),
            initial_color: roll.color,
        };
        self.spawn_player_server(&cmd);
        HandshakeOutcome { response, spawned: Some(cmd) }
    }

    /// Replaces the avatar at position `i`, keeping its owner.
    fn replace_avatar(&mut self, i: usize, a: Avatar)
        requires
            old(self).wf(),
            i < old(self).avatars@.len(),
            a.owner == old(self).avatars@[i as int].owner,
            a.display_name@ == old(self).avatars@[i as int].display_name@,
        ensures
            final(self).wf(),
            final(self)@ == (WorldView {
                avatars: old(self)@.avatars.insert(a.owner, a@),
                ..old(self)@
            }),
            final(self).avatars@ == old(self).avatars@.update(i as int, a),
    {
        let ghost old_avatars = self.avatars@;
        let ghost m = self.avatar_model@;
        let ghost av = a@;
        let id = a.owner;
        self.avatars[i] = a;
        self.avatar_model = Ghost(m.insert(id, av));
        proof {
            assert forall|k: int|
                #![trigger self.avatars@[k]]
                0 <= k < self.avatars@.len() implies self.avatar_model@.contains_key(
                    self.avatars@[k].owner,
                ) && self.avatar_model@[self.avatars@[k].owner] == self.avatars@[k]@ by {
                if k != i {
                    assert(self.avatars@[k] == old_avatars[k]);
                    assert(old_avatars[k].owner != old_avatars[i as int].owner);
                }
            }
            assert forall|oid: u64| #[trigger] self.avatar_model@.contains_key(oid) implies exists|
                k: int,
            | 0 <= k < self.avatars@.len() && #[trigger] self.avatars@[k].owner == oid by {
                assert(m.contains_key(oid));
                let j = choose|j: int|
                    0 <= j < old_avatars.len() && #[trigger] old_avatars[j].owner == oid;
                assert(self.avatars@[j].owner == old_avatars[j].owner);
            }
            assert forall|x: int, y: int|
                #![trigger self.avatars@[x].owner, self.avatars@[y].owner]
                0 <= x < self.avatars@.len() && 0 <= y < self.avatars@.len() && x != y
                    implies self.avatars@[x].owner != self.avatars@[y].owner by {
                assert(self.avatars@[x].owner == old_avatars[x].owner);
                assert(self.avatars@[y].owner == old_avatars[y].owner);
            }
            assert(m.contains_key(id));
            assert(self.avatar_model@.dom() =~= self.tracker@.dom());
        }
    }

    /// Applies a command from `client_id`. The only check is that the
    /// connection is joined: a command from any other connection (one that
    /// disconnected, or never joined) is discarded and `false` returned.
    pub fn handle_command(&mut self, client_id: u64, cmd: C2SCommand) -> (r: bool)
        requires
            old(self).wf(),
        ensures
            final(self).wf(),
            final(self)@ == command_view(old(self)@, client_id, cmd),
            r == old(self)@.joined.contains_key(client_id),
    {
        match self.find_avatar(client_id) {
            None => false,
            Some(i) => {
                let C2SCommand::ChangeAvatarColor { r, g, b } = cmd;
                let old_avatar = &self.avatars[i];
                let a = Avatar {
                    owner: old_avatar.owner,
                    display_name: old_avatar.display_name.clone(),
                    color: PlayerAvatarColor { r, g, b },
                    transform: old_avatar.transform,
                    replicated: old_avatar.replicated,
                };
                self.replace_avatar(i, a);
                true
            },
        }
    }

    /// Resolves the avatar that input from `client_id` moves, with its
    /// authoritative transform; `None` (the input is discarded) for a
    /// connection that is not tracked.
    pub fn input_target(&self, client_id: u64) -> (r: Option<(AvatarHandle, Transform)>)
        requires
            self.wf(),
        ensures
            r == input_target_view(self@, client_id),
    {
        match self.find_avatar(client_id) {
            None => None,
            Some(i) => Some((AvatarHandle(client_id), self.avatars[i].transform)),
        }
    }

    /// The ingestion step of a tick: resolves, for each buffered input in
    /// arrival order, the avatar it moves. Inputs from connections that are
    /// not tracked resolve to `None` and are discarded by the caller.
    pub fn route_inputs(&self, senders: &Vec<u64>) -> (r: Vec<Option<(AvatarHandle, Transform)>>)
        requires
            self.wf(),
        ensures
            r@.len() == senders@.len(),
            forall|i: int|
                0 <= i < senders@.len() ==> #[trigger] r@[i] == input_target_view(self@, senders@[i]),
    {
        let mut r: Vec<Option<(AvatarHandle, Transform)>> = Vec::new();
        let mut i: usize = 0;
        while i < senders.len()
            invariant
                self.wf(),
                i <= senders@.len(),
                r@.len() == i,
                forall|k: int|
                    0 <= k < i ==> #[trigger] r@[k] == input_target_view(self@, senders@[k]),
            decreases senders@.len() - i,
        {
            r.push(self.input_target(senders[i]));
            i = i + 1;
        }
        r
    }

    /// Stores the authoritative transform that the simulation computed for
    /// `client_id`'s avatar. Returns `false`, changing nothing, for a
    /// connection that is not tracked.
    pub fn write_transform(&mut self, client_id: u64, t: Transform) -> (r: bool)
        requires
            old(self).wf(),
        ensures
            final(self).wf(),
            final(self)@ == write_transform_view(old(self)@, client_id, t),
            r == old(self)@.joined.contains_key(client_id),
    {
        match self.find_avatar(client_id) {
            None => false,
            Some(i) => {
                let old_avatar = &self.avatars[i];
                let a = Avatar {
                    owner: old_avatar.owner,
                    display_name: old_avatar.display_name.clone(),
                    color: old_avatar.color,
                    transform: t,
                    replicated: old_avatar.replicated,
                };
                self.replace_avatar(i, a);
                true
            },
        }
    }

    /// The server's mirroring step: copies every avatar's authoritative
    /// transform into its replicated transform.
    pub fn mirror_transforms(&mut self)
        requires
            old(self).wf(),
        ensures
            final(self).wf(),
            final(self)@ == mirror_view(old(self)@),
    {
        let ghost start = self@;
        let ghost start_avatars = self.avatars@;
        let mut i: usize = 0;
        while i < self.avatars.len()
            invariant
                self.wf(),
                i <= self.avatars@.len(),
                self.avatars@.len() == start_avatars.len(),
                self@.required_password == start.required_password,
                self@.awaiting == start.awaiting,
                self@.joined == start.joined,
                self@.avatars.dom() == start.avatars.dom(),
                forall|k: int|
                    0 <= k < self.avatars@.len() ==> #[trigger] self.avatars@[k].owner
                        == start_avatars[k].owner,
                forall|k: int|
                    0 <= k < i ==> #[trigger] self.avatars@[k]@ == (AvatarView {
                        replicated: replicate(start_avatars[k].transform),
                        ..start_avatars[k]@
                    }),
                forall|k: int| i <= k < self.avatars@.len() ==> #[trigger] self.avatars@[k]@ == start_avatars[k]@,
                forall|k: int|
                    0 <= k < start_avatars.len() ==> #[trigger] start.avatars[start_avatars[k].owner]
                        == start_avatars[k]@,
            decreases self.avatars@.len() - i,
        {
            let old_avatar = &self.avatars[i];
            let a = Avatar {
                owner: old_avatar.owner,
                display_name: old_avatar.display_name.clone(),
                color: old_avatar.color,
                transform: old_avatar.transform,
                replicated: ReplicatedTransform::from(old_avatar.transform),
            };
            self.replace_avatar(i, a);
            i = i + 1;
        }
        proof {
            let target = mirror_view(start);
            assert(start_avatars.len() == self.avatars@.len());
            assert forall|id: u64| #[trigger] self@.avatars.contains_key(id) implies self@.avatars[id]
                == target.avatars[id] by {
                let k = choose|k: int|
                    0 <= k < self.avatars@.len() && #[trigger] self.avatars@[k].owner == id;
                assert(start.avatars[start_avatars[k].owner] == start_avatars[k]@);
            }
            assert(self@.avatars =~= target.avatars);
        }
    }
}

/// What holds of the view of every well-formed world: names are unique, each
/// tracked connection owns exactly the avatar named by its own identifier.
pub open spec fn world_consistent(v: WorldView) -> bool {
    &&& crate::tracker::names_unique(v.joined)
    &&& v.joined.dom().finite()
    &&& v.avatars.dom() == v.joined.dom()
    &&& forall|id: u64|
        #[trigger] v.joined.contains_key(id) ==> v.joined[id] == (AvatarHandle(id), v.avatars[id].name)
}


/// Whether step `v` to `w` keeps the tracker entry of `id`, if it had one.
pub open spec fn keeps_entry(v: WorldView, w: WorldView, id: u64) -> bool {
    v.joined.contains_key(id) ==> w.joined.contains_key(id) && w.joined[id] == v.joined[id]
}

/// In a consistent world a joined connection's name leads back to it, and
/// to no other connection.
pub proof fn lemma_name_resolves(v: WorldView, id: u64)
    requires
        world_consistent(v),
        v.joined.contains_key(id),
    ensures
        name_in_use(v.joined, v.joined[id].1),
        forall|x: u64|
            #[trigger] v.joined.contains_key(x) && v.joined[x].1 == v.joined[id].1 ==> x == id,
        v.joined[id].0 == AvatarHandle(id),
{
    assert(v.joined.contains_key(id) && v.joined[id].1 == v.joined[id].1);
}

/// An accepted join leaves the world consistent, with the name mapped to the
/// connection and the connection to its avatar; every later step keeps that
/// entry until the connection itself disconnects: connects, joins of any
/// connection, commands, transform writes, mirroring, and disconnects of
/// other connections.
pub proof fn lemma_accepted_entry_persists(
    v: WorldView,
    id: u64,
    name: Seq<char>,
    password: Option<Seq<char>>,
    roll: SpawnRoll,
    other: u64,
    other_name: Seq<char>,
    other_password: Option<Seq<char>>,
    other_roll: SpawnRoll,
    cmd: C2SCommand,
    t: Transform,
)
    requires
        world_consistent(v),
        verdict_in(v, id, name, password) == HandshakeVerdict::Accept,
    ensures
        ({
            let w = handshake_view(v, id, name, password, roll);
            &&& world_consistent(w)
            &&& w.joined.contains_key(id)
            &&& w.joined[id] == (AvatarHandle(id), name)
            &&& keeps_entry(w, connect_view(w, other), id)
            &&& keeps_entry(w, handshake_view(w, other, other_name, other_password, other_roll), id)
            &&& keeps_entry(w, command_view(w, other, cmd), id)
            &&& keeps_entry(w, write_transform_view(w, other, t), id)
            &&& keeps_entry(w, mirror_view(w), id)
            &&& other != id ==> keeps_entry(w, disconnect_view(w, other), id)
        }),
{
    let w = handshake_view(v, id, name, password, roll);
    assert(w.avatars.dom() =~= w.joined.dom());
    assert forall|a: u64, b: u64|
        #![trigger w.joined[a], w.joined[b]]
        w.joined.contains_key(a) && w.joined.contains_key(b) && a != b implies w.joined[a].1
        != w.joined[b].1 by {
        if a == id {
            assert(v.joined.contains_key(b));
        } else if b == id {
            assert(v.joined.contains_key(a));
        } else {
            assert(v.joined[a] == w.joined[a]);
            assert(v.joined[b] == w.joined[b]);
        }
    }
    assert forall|x: u64| #[trigger] w.joined.contains_key(x) implies w.joined[x] == (
        AvatarHandle(x),
        w.avatars[x].name,
    ) by {
        if x != id {
            assert(v.joined.contains_key(x));
        }
    }
}

/// A rejected join request changes nothing: no tracker entry, no avatar, the
/// same number of tracked connections.
pub proof fn lemma_rejection_changes_nothing(
    v: WorldView,
    id: u64,
    name: Seq<char>,
    password: Option<Seq<char>>,
    roll: SpawnRoll,
)
    requires
        verdict_in(v, id, name, password) != HandshakeVerdict::Accept,
    ensures
        handshake_view(v, id, name, password, roll) == v,
        handshake_view(v, id, name, password, roll).joined.len() == v.joined.len(),
        handshake_view(v, id, name, password, roll).avatars == v.avatars,
{
}

/// Two connections ask for the same free name, both with a password the room
/// accepts: whichever is handled first joins, the other is told the name is
/// in use.
pub proof fn lemma_duplicate_name_rejected(
    v: WorldView,
    first: u64,
    second: u64,
    name: Seq<char>,
    first_password: Option<Seq<char>>,
    second_password: Option<Seq<char>>,
    roll: SpawnRoll,
)
    requires
        first != second,
        name.len() > 0,
        !name_in_use(v.joined, name),
        !v.joined.contains_key(first),
        v.required_password.is_some() ==> first_password == v.required_password,
        v.required_password.is_some() ==> second_password == v.required_password,
    ensures
        verdict_in(v, first, name, first_password) == HandshakeVerdict::Accept,
        verdict_in(handshake_view(v, first, name, first_password, roll), second, name, second_password)
            == HandshakeVerdict::NameInUse,
{
    let w = handshake_view(v, first, name, first_password, roll);
    assert(w.joined.contains_key(first) && w.joined[first].1 == name);
}

/// After a connection disconnects, input and commands that still carry its
/// identifier are discarded: no avatar is resolved for input, and a command
/// or a transform write changes neither the tracker nor any avatar.
pub proof fn lemma_orphaned_messages_discarded(
    v: WorldView,
    id: u64,
    cmd: C2SCommand,
    t: Transform,
)
    ensures
        input_target_view(disconnect_view(v, id), id) is None,
        command_view(disconnect_view(v, id), id, cmd) == disconnect_view(v, id),
        write_transform_view(disconnect_view(v, id), id, t) == disconnect_view(v, id),
{
}

} // verus!
