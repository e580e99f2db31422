//! Transforms as exchanged between the simulation and replication.
//!
//! Every component is held as the IEEE-754 bit pattern of a 32-bit float. The
//! library never does arithmetic on them: it copies them, so every copy is
//! exact.
use vstd::prelude::*;

verus! {

/// Bit pattern of the float `0.0`.
pub const ZERO_BITS: u32 = 0;

/// Bit pattern of the float `1.0`.
pub const ONE_BITS: u32 = 0x3F80_0000;

/// A three-component vector, as float bit patterns.
#[derive(Clone, Copy, Debug, PartialEq, Eq, Structural)]
pub struct Vec3Bits {
    pub x: u32,
    pub y: u32,
    pub z: u32,
}

/// A rotation quaternion, as float bit patterns.
#[derive(Clone, Copy, Debug, PartialEq, Eq, Structural)]
pub struct QuatBits {
    pub x: u32,
    pub y: u32,
    pub z: u32,
    pub w: u32,
}

/// A simulation-side transform: the authoritative one on the server, the
/// rendered one on a client.
#[derive(Clone, Copy, Debug, PartialEq, Eq, Structural)]
pub struct Transform {
    pub translation: Vec3Bits,
    pub rotation: QuatBits,
    pub scale: Vec3Bits,
}

/// The network-visible shadow of an avatar's transform.
#[derive(Clone, Copy, Debug, PartialEq, Eq, Structural)]
pub struct ReplicatedTransform {
    pub translation: Vec3Bits,
    pub rotation: QuatBits,
    pub scale: Vec3Bits,
}

impl Vec3Bits {
    /// The vector `(1, 1, 1)`.
    pub fn one() -> (r: Vec3Bits)
        ensures
            r == (Vec3Bits { x: ONE_BITS, y: ONE_BITS, z: ONE_BITS }),
    {
        Vec3Bits { x: ONE_BITS, y: ONE_BITS, z: ONE_BITS }
    }
}

impl QuatBits {
    /// The identity rotation `(0, 0, 0, 1)`.
    pub fn identity() -> (r: QuatBits)
        ensures
            r == (QuatBits { x: ZERO_BITS, y: ZERO_BITS, z: ZERO_BITS, w: ONE_BITS }),
    {
        QuatBits { x: ZERO_BITS, y: ZERO_BITS, z: ZERO_BITS, w: ONE_BITS }
    }
}

/// The replicated form of a transform, field for field.
pub open spec fn replicate(t: Transform) -> ReplicatedTransform {
    ReplicatedTransform { translation: t.translation, rotation: t.rotation, scale: t.scale }
}

/// The simulation form of a replicated transform, field for field.
pub open spec fn materialize(r: ReplicatedTransform) -> Transform {
    Transform { translation: r.translation, rotation: r.rotation, scale: r.scale }
}

impl From<Transform> for ReplicatedTransform {
    fn from(value: Transform) -> (r: ReplicatedTransform) {
        let Transform { translation, rotation, scale } = value;
        ReplicatedTransform { translation, rotation, scale }
    }
}

impl vstd::std_specs::convert::FromSpecImpl<Transform> for ReplicatedTransform {
    open spec fn obeys_from_spec() -> bool {
        true
    }

    open spec fn from_spec(v: Transform) -> ReplicatedTransform {
        replicate(v)
    }
}

impl From<ReplicatedTransform> for Transform {
    fn from(value: ReplicatedTransform) -> (r: Transform) {
        let ReplicatedTransform { translation, rotation, scale } = value;
        Transform { translation, rotation, scale }
    }
}

impl vstd::std_specs::convert::FromSpecImpl<ReplicatedTransform> for Transform {
    open spec fn obeys_from_spec() -> bool {
        true
    }

    open spec fn from_spec(v: ReplicatedTransform) -> Transform {
        materialize(v)
    }
}

/// Converting to the replicated form and back gives the transform bit for bit.
pub proof fn lemma_replicate_round_trip(t: Transform)
    ensures
        materialize(replicate(t)) == t,
{
}

} // verus!
