//! The client's copy of the replicated avatars, and its mirroring step from
//! replicated transforms to rendered transforms.
use vstd::prelude::*;
use crate::server::{
    mirror_view, spawn_transform, spawn_view, PlayerAvatarColor, S2CSpawnPlayerCommand,
    WorldView,
};
use crate::transform::{materialize, replicate, QuatBits, ReplicatedTransform, Transform, Vec3Bits};

verus! {

/// An avatar as a client sees it: what the server replicates, and the
/// transform the client renders once the avatar has one.
pub struct ReplicatedAvatar {
    pub owner: u64,
    pub display_name: String,
    pub color: PlayerAvatarColor,
    pub replicated: ReplicatedTransform,
    pub render: Option<Transform>,
}

/// The replicated avatars a client knows of.
pub struct ClientWorld {
    pub avatars: Vec<ReplicatedAvatar>,
}

/// The rendered transform after the client's mirroring step: avatars that
/// are rendered take their replicated transform; the others stay unrendered.
pub open spec fn mirrored_render(a: ReplicatedAvatar) -> Option<Transform> {
    if a.render is Some {
        Some(materialize(a.replicated))
    } else {
        None
    }
}

impl ClientWorld {
    pub fn new() -> (r: ClientWorld)
        ensures
            r.avatars@.len() == 0,
    {
        ClientWorld { avatars: Vec::new() }
    }

    /// The client's mirroring step: copies every replicated transform into
    /// the rendered transform of its avatar. Nothing else changes.
    pub fn mirror_replicated_transform(&mut self)
        ensures
            final(self).avatars@.len() == old(self).avatars@.len(),
            forall|i: int|
                #![trigger final(self).avatars@[i]]
                0 <= i < old(self).avatars@.len() ==> {
                    let a = old(self).avatars@[i];
                    let b = final(self).avatars@[i];
                    &&& b.owner == a.owner
                    &&& b.display_name@ == a.display_name@
                    &&& b.color == a.color
                    &&& b.replicated == a.replicated
                    &&& b.render == mirrored_render(a)
                },
    {
        let ghost start = self.avatars@;
        let mut i: usize = 0;
        while i < self.avatars.len()
            invariant
                i <= self.avatars@.len(),
                self.avatars@.len() == start.len(),
                forall|k: int|
                    #![trigger self.avatars@[k]]
                    0 <= k < self.avatars@.len() ==> {
                        let a = start[k];
                        let b = self.avatars@[k];
                        &&& b.owner == a.owner
                        &&& b.display_name@ == a.display_name@
                        &&& b.color == a.color
                        &&& b.replicated == a.replicated
                        &&& b.render == (if k < i {
                            mirrored_render(a)
                        } else {
                            a.render
                        })
                    },
            decreases self.avatars@.len() - i,
        {
            if self.avatars[i].render.is_some() {
                let t = Transform::from(self.avatars[i].replicated);
                self.avatars[i].render = Some(t);
            }
            i = i + 1;
        }
    }

    /// Gives the announced avatar its rendered transform: every known avatar
    /// owned by the announced connection is placed at the announced
    /// translation and rotation, with unit scale.
    pub fn spawn_player(&mut self, cmd: &S2CSpawnPlayerCommand)
        ensures
            final(self).avatars@.len() == old(self).avatars@.len(),
            forall|i: int|
                #![trigger final(self).avatars@[i]]
                0 <= i < old(self).avatars@.len() ==> {
                    let a = old(self).avatars@[i];
                    let b = final(self).avatars@[i];
                    &&& b.owner == a.owner
                    &&& b.display_name@ == a.display_name@
                    &&& b.color == a.color
                    &&& b.replicated == a.replicated
                    &&& b.render == (if a.owner == cmd.for_client_id {
                        Some(spawn_transform(cmd.initial_translation, cmd.initial_rotation))
                    } else {
                        a.render
                    })
                },
    {
        let ghost start = self.avatars@;
        let mut i: usize = 0;
        while i < self.avatars.len()
            invariant
                i <= self.avatars@.len(),
                self.avatars@.len() == start.len(),
                forall|k: int|
                    #![trigger self.avatars@[k]]
                    0 <= k < self.avatars@.len() ==> {
                        let a = start[k];
                        let b = self.avatars@[k];
                        &&& b.owner == a.owner
                        &&& b.display_name@ == a.display_name@
                        &&& b.color == a.color
                        &&& b.replicated == a.replicated
                        &&& b.render == (if k < i && a.owner == cmd.for_client_id {
                            Some(spawn_transform(cmd.initial_translation, cmd.initial_rotation))
                        } else {
                            a.render
                        })
                    },
            decreases self.avatars@.len() - i,
        {
            if self.avatars[i].owner == cmd.for_client_id {
                let t = Transform {
                    translation: cmd.initial_translation,
                    rotation: cmd.initial_rotation,
                    scale: Vec3Bits::one(),
                };
                self.avatars[i].render = Some(t);
            }
            i = i + 1;
        }
    }

    /// Applies a replication update for `owner`'s avatar: a known avatar
    /// takes the new name, tint and replicated transform and keeps its
    /// rendered transform; an unknown one is added, not yet rendered.
    pub fn receive_replica(
        &mut self,
        owner: u64,
        display_name: String,
        color: PlayerAvatarColor,
        replicated: ReplicatedTransform,
    )
        ensures
            ({
                    let n = old(self).avatars@.len();
                    if exists|k: int| 0 <= k < n && #[trigger] old(self).avatars@[k].owner == owner {
                        &&& final(self).avatars@.len() == n
                        &&& forall|k: int|
                            #![trigger final(self).avatars@[k]]
                            0 <= k < n ==> {
                                let a = old(self).avatars@[k];
                                let b = final(self).avatars@[k];
                                if a.owner == owner {
                                    b.owner == owner && b.display_name@ == display_name@ && b.color
                                        == color && b.replicated == replicated && b.render
                                        == a.render
                                } else {
                                    b == a
                                }
                            }
                    } else {
                        &&& final(self).avatars@.len() == n + 1
                        &&& forall|k: int|
                            0 <= k < n ==> #[trigger] final(self).avatars@[k] == old(self).avatars@[k]
                        &&& final(self).avatars@[n as int].owner == owner
                        &&& final(self).avatars@[n as int].display_name@ == display_name@
                        &&& final(self).avatars@[n as int].color == color
                        &&& final(self).avatars@[n as int].replicated == replicated
                        &&& final(self).avatars@[n as int].render is None
                    }
            }),
    {
        let ghost start = self.avatars@;
        let mut i: usize = 0;
        let mut found = false;
        while i < self.avatars.len()
            invariant
                i <= self.avatars@.len(),
                self.avatars@.len() == start.len(),
                found ==> exists|k: int| 0 <= k < i && #[trigger] start[k].owner == owner,
                !found ==> forall|k: int| 0 <= k < i ==> #[trigger] start[k].owner != owner,
                forall|k: int|
                    #![trigger self.avatars@[k]]
                    0 <= k < self.avatars@.len() ==> {
                        let a = start[k];
                        let b = self.avatars@[k];
                        if k < i && a.owner == owner {
                            b.owner == owner && b.display_name@ == display_name@ && b.color == color
                                && b.replicated == replicated && b.render == a.render
                        } else {
                            b == a
                        }
                    },
            decreases self.avatars@.len() - i,
        {
            if self.avatars[i].owner == owner {
                self.avatars[i].display_name = display_name.clone();
                self.avatars[i].color = color;
                self.avatars[i].replicated = replicated;
                found = true;
            }
            i = i + 1;
        }
        if !found {
            self.avatars.push(
                ReplicatedAvatar { owner, display_name, color, replicated, render: None },
            );
        }
    }

    /// Gives every avatar that is not rendered yet its rendered transform,
    /// placed at its replicated translation and rotation with unit scale.
    pub fn spawn_player_mesh(&mut self)
        ensures
            final(self).avatars@.len() == old(self).avatars@.len(),
            forall|i: int|
                #![trigger final(self).avatars@[i]]
                0 <= i < old(self).avatars@.len() ==> {
                    let a = old(self).avatars@[i];
                    let b = final(self).avatars@[i];
                    &&& b.owner == a.owner
                    &&& b.display_name@ == a.display_name@
                    &&& b.color == a.color
                    &&& b.replicated == a.replicated
                    &&& b.render == (if a.render is None {
                        Some(spawn_transform(a.replicated.translation, a.replicated.rotation))
                    } else {
                        a.render
                    })
                },
    {
        let ghost start = self.avatars@;
        let mut i: usize = 0;
        while i < self.avatars.len()
            invariant
                i <= self.avatars@.len(),
                self.avatars@.len() == start.len(),
                forall|k: int|
                    #![trigger self.avatars@[k]]
                    0 <= k < self.avatars@.len() ==> {
                        let a = start[k];
                        let b = self.avatars@[k];
                        &&& b.owner == a.owner
                        &&& b.display_name@ == a.display_name@
                        &&& b.color == a.color
                        &&& b.replicated == a.replicated
                        &&& b.render == (if k < i && a.render is None {
                            Some(spawn_transform(a.replicated.translation, a.replicated.rotation))
                        } else {
                            a.render
                        })
                    },
            decreases self.avatars@.len() - i,
        {
            if self.avatars[i].render.is_none() {
                let r = self.avatars[i].replicated;
                self.avatars[i].render = Some(
                    Transform { translation: r.translation, rotation: r.rotation, scale: Vec3Bits::one() },
                );
            }
            i = i + 1;
        }
    }

    /// Position of the avatar that this client owns, if it is known.
    pub fn owned_avatar(&self, this_client: u64) -> (r: Option<usize>)
        ensures
            match r {
                Some(i) => i < self.avatars@.len() && self.avatars@[i as int].owner == this_client,
                None => forall|k: int|
                    0 <= k < self.avatars@.len() ==> #[trigger] self.avatars@[k].owner
                        != this_client,
            },
    {
        let mut i: usize = 0;
        while i < self.avatars.len()
            invariant
                i <= self.avatars@.len(),
                forall|k: int| 0 <= k < i ==> #[trigger] self.avatars@[k].owner != this_client,
            decreases self.avatars@.len() - i,
        {
            if self.avatars[i].owner == this_client {
                return Some(i);
            }
            i = i + 1;
        }
        None
    }
}

/// The transform the spawner writes reaches a client's render bit for bit:
/// the server's mirroring copies it into the replicated transform, and the
/// client's mirroring copies that into the rendered transform, absent any
/// simulation step in between.
pub proof fn lemma_transform_round_trip(
    v: WorldView,
    id: u64,
    name: Seq<char>,
    color: PlayerAvatarColor,
    translation: Vec3Bits,
    rotation: QuatBits,
    seen: ReplicatedAvatar,
)
    requires
        seen.render is Some,
        seen.replicated == mirror_view(
            spawn_view(v, id, name, color, translation, rotation),
        ).avatars[id].replicated,
    ensures
        mirror_view(spawn_view(v, id, name, color, translation, rotation)).avatars[id].transform
            == spawn_transform(translation, rotation),
        mirrored_render(seen) == Some(spawn_transform(translation, rotation)),
{
    let w = spawn_view(v, id, name, color, translation, rotation);
    assert(w.avatars.contains_key(id));
    assert(mirror_view(w).avatars[id].replicated == replicate(spawn_transform(translation, rotation)));
}

} // verus!
