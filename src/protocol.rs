//! The wire protocol: each message's direction and delivery class, the
//! replicated components, and the protocol version tag.
use vstd::prelude::*;

verus! {

/// Protocol version tag of the 0.1 series; peers with another tag are
/// refused by the transport before any message is read.
pub const PROTOCOL_ID_V0_1: u64 = 1_542_994_232_742;

/// Most connections a server accepts at once.
pub const MAX_CLIENTS: usize = 32;

/// Delivery class of a channel.
#[derive(Clone, Copy, Debug, PartialEq, Eq, Structural)]
pub enum ChannelKind {
    /// In order, exactly once.
    Ordered,
    /// May be dropped or reordered.
    Unreliable,
}

/// Who sends a message to whom.
#[derive(Clone, Copy, Debug, PartialEq, Eq, Structural)]
pub enum Direction {
    ClientToServer,
    ServerToClient,
}

/// The application messages.
#[derive(Clone, Copy, Debug, PartialEq, Eq, Structural)]
pub enum MessageKind {
    JoinRequest,
    JoinResult,
    AvatarSpawned,
    InputSample,
    AvatarCommand,
}

/// The channel of a message: input samples are self-contained and may be
/// lost; everything else must arrive exactly once and in order.
pub open spec fn channel_spec(m: MessageKind) -> ChannelKind {
    if m == MessageKind::InputSample {
        ChannelKind::Unreliable
    } else {
        ChannelKind::Ordered
    }
}

/// The direction of a message.
pub open spec fn direction_spec(m: MessageKind) -> Direction {
    match m {
        MessageKind::JoinRequest | MessageKind::InputSample | MessageKind::AvatarCommand => {
            Direction::ClientToServer
        },
        MessageKind::JoinResult | MessageKind::AvatarSpawned => Direction::ServerToClient,
    }
}

impl MessageKind {
    /// The delivery class this message travels on.
    pub fn channel(&self) -> (r: ChannelKind)
        ensures
            r == channel_spec(*self),
    {
        match self {
            MessageKind::InputSample => ChannelKind::Unreliable,
            _ => ChannelKind::Ordered,
        }
    }

    /// Who sends this message.
    pub fn direction(&self) -> (r: Direction)
        ensures
            r == direction_spec(*self),
    {
        match self {
            MessageKind::JoinRequest | MessageKind::InputSample | MessageKind::AvatarCommand => {
                Direction::ClientToServer
            },
            MessageKind::JoinResult | MessageKind::AvatarSpawned => Direction::ServerToClient,
        }
    }
}

/// The components the server replicates to every client.
#[derive(Clone, Copy, Debug, PartialEq, Eq, Structural)]
pub enum ReplicatedComponent {
    OwnedByClient,
    ReplicatedTransform,
    PlayerAvatarColor,
    PlayerDisplayName,
}

/// All replicated components, in registration order.
pub fn replicated_components() -> (r: Vec<ReplicatedComponent>)
    ensures
        r@ == seq![
            ReplicatedComponent::OwnedByClient,
            ReplicatedComponent::ReplicatedTransform,
            ReplicatedComponent::PlayerAvatarColor,
            ReplicatedComponent::PlayerDisplayName,
        ],
{
    let r = vec![
        ReplicatedComponent::OwnedByClient,
        ReplicatedComponent::ReplicatedTransform,
        ReplicatedComponent::PlayerAvatarColor,
        ReplicatedComponent::PlayerDisplayName,
    ];
    proof {
        assert(r@ =~= seq![
            ReplicatedComponent::OwnedByClient,
            ReplicatedComponent::ReplicatedTransform,
            ReplicatedComponent::PlayerAvatarColor,
            ReplicatedComponent::PlayerDisplayName,
        ]);
    }
    r
}

/// Whether the server runs as its own process or inside a client.
#[derive(Clone, Copy, Debug, PartialEq, Eq, Structural)]
pub enum ServerRunMode {
    Standalone,
    WithClient,
}

/// How a server is embedded in its host program.
pub struct ImmSimServerPlugin {
    run_mode: ServerRunMode,
}

impl ImmSimServerPlugin {
    pub closed spec fn spec_run_mode(&self) -> ServerRunMode {
        self.run_mode
    }

    /// A server in a process of its own.
    pub fn standalone() -> (r: ImmSimServerPlugin)
        ensures
            r.spec_run_mode() == ServerRunMode::Standalone,
    {
        ImmSimServerPlugin { run_mode: ServerRunMode::Standalone }
    }

    /// A server inside a client, which already provides the base runtime.
    pub fn alongside_client() -> (r: ImmSimServerPlugin)
        ensures
            r.spec_run_mode() == ServerRunMode::WithClient,
    {
        ImmSimServerPlugin { run_mode: ServerRunMode::WithClient }
    }

    pub fn run_mode(&self) -> (r: ServerRunMode)
        ensures
            r == self.spec_run_mode(),
    {
        self.run_mode
    }

    /// Whether the server brings its own runtime, networking and physics:
    /// only when it runs standalone, so that a client host does not get them
    /// twice.
    pub fn provides_base_runtime(&self) -> (r: bool)
        ensures
            r == (self.spec_run_mode() == ServerRunMode::Standalone),
    {
        self.run_mode == ServerRunMode::Standalone
    }
}

/// Collision layers.
#[derive(Clone, Copy, Debug, PartialEq, Eq, Structural)]
pub enum CoLayer {
    Environment,
    Player,
    Pickup,
}

/// The layer an avatar's colliders belong to, and the layers they collide
/// with: other avatars, the environment and pickups.
pub fn generate_collision_layers() -> (r: (CoLayer, Vec<CoLayer>))
    ensures
        r.0 == CoLayer::Player,
        r.1@ == seq![CoLayer::Player, CoLayer::Environment, CoLayer::Pickup],
{
    let filters = vec![CoLayer::Player, CoLayer::Environment, CoLayer::Pickup];
    proof {
        assert(filters@ =~= seq![CoLayer::Player, CoLayer::Environment, CoLayer::Pickup]);
    }
    (CoLayer::Player, filters)
}

} // verus!
