//! The entities of the range and the per-frame systems that act on them.
//!
//! Positions and rotations are type parameters: the systems only move such
//! values around, so they are proved for whatever vector type a caller picks.
use vstd::prelude::*;

use crate::speed::ProjectileData;

verus! {

/// The single stationary entity that fires.
pub struct Shooter<P, R> {
    pub position: P,
    pub rotation: R,
}

/// A projectile in flight. Its identity is its index in `Scene::projectiles`.
pub struct Projectile<P, R> {
    pub position: P,
    pub rotation: R,
}

/// The rendering follower of one projectile.
pub struct ProjectileTrail<P> {
    /// Identity of the projectile that this trail follows.
    pub projectile: usize,
    pub position: P,
}

/// Everything on the range: the shooter, the projectiles and their trails.
pub struct Scene<P, R> {
    pub shooter: Shooter<P, R>,
    pub projectiles: Vec<Projectile<P, R>>,
    pub trails: Vec<ProjectileTrail<P>>,
}

/// The projectile that leaves a shooter: same position, same rotation.
pub open spec fn shot_from<P, R>(shooter: Shooter<P, R>) -> Projectile<P, R> {
    Projectile { position: shooter.position, rotation: shooter.rotation }
}

/// The trail that `trail` becomes once it has caught up with its projectile.
pub open spec fn caught_up<P, R>(
    trail: ProjectileTrail<P>,
    projectiles: Seq<Projectile<P, R>>,
) -> ProjectileTrail<P>
    recommends
        trail.projectile < projectiles.len(),
{
    ProjectileTrail {
        projectile: trail.projectile,
        position: projectiles[trail.projectile as int].position,
    }
}

impl<P: Copy, R: Copy> Scene<P, R> {
    /// Every trail refers to a projectile that exists.
    pub open spec fn links_alive(&self) -> bool {
        forall|i: int|
            0 <= i < self.trails@.len() ==> (#[trigger] self.trails@[i]).projectile
                < self.projectiles@.len()
    }

    /// Every trail sits where its projectile is.
    pub open spec fn trails_on_target(&self) -> bool {
        forall|i: int|
            0 <= i < self.trails@.len() ==> {
                let trail = #[trigger] self.trails@[i];
                trail.projectile < self.projectiles@.len() && trail.position
                    == self.projectiles@[trail.projectile as int].position
            }
    }

    /// A range with its shooter and nothing in flight.
    pub fn new(shooter: Shooter<P, R>) -> (scene: Self)
        ensures
            scene.shooter == shooter,
            scene.projectiles@ == Seq::<Projectile<P, R>>::empty(),
            scene.trails@ == Seq::<ProjectileTrail<P>>::empty(),
            scene.links_alive(),
    {
        Scene { shooter, projectiles: Vec::new(), trails: Vec::new() }
    }

    /// Tells whether every trail refers to a projectile that exists.
    pub fn all_links_alive(&self) -> (alive: bool)
        ensures
            alive == self.links_alive(),
    {
        let count: usize = self.projectiles.len();
        let mut i: usize = 0;
        while i < self.trails.len()
            invariant
                i <= self.trails@.len(),
                count == self.projectiles@.len(),
                forall|j: int|
                    0 <= j < i ==> (#[trigger] self.trails@[j]).projectile
                        < self.projectiles@.len(),
            decreases self.trails@.len() - i,
        {
            if self.trails[i].projectile >= count {
                return false;
            }
            i = i + 1;
        }
        true
    }

    /// On a click, launches one projectile from the shooter together with the
    /// trail that follows it, and returns the projectile's identity.
    pub fn fire_shooter(&mut self, clicked: bool) -> (fired: Option<usize>)
        ensures
            final(self).shooter == old(self).shooter,
            !clicked ==> fired.is_none() && final(self).projectiles@ == old(self).projectiles@
                && final(self).trails@ == old(self).trails@,
            clicked ==> fired.is_some() && fired.unwrap() == old(self).projectiles@.len()
                && final(self).projectiles@ == old(self).projectiles@.push(
                shot_from(old(self).shooter),
            ) && final(self).trails@ == old(self).trails@.push(
                (ProjectileTrail {
                    projectile: fired.unwrap(),
                    position: old(self).shooter.position,
                }),
            ),
            old(self).links_alive() ==> final(self).links_alive(),
    {
        if !clicked {
            return None;
        }
        let id: usize = self.projectiles.len();
        self.projectiles.push(
            Projectile { position: self.shooter.position, rotation: self.shooter.rotation },
        );
        self.trails.push(ProjectileTrail { projectile: id, position: self.shooter.position });
        Some(id)
    }

    /// One fixed simulation step: every projectile moves to where `step` puts
    /// it, given its position, its rotation, the configured speed and the
    /// length of the step.
    pub fn projectile_ray<E, D: Copy, F: Fn(P, R, i64, D) -> P>(
        &mut self,
        data: &ProjectileData<E>,
        dt: D,
        step: F,
    )
        requires
            forall|i: int|
                0 <= i < old(self).projectiles@.len() ==> call_requires(
                    step,
                    (
                        (#[trigger] old(self).projectiles@[i]).position,
                        old(self).projectiles@[i].rotation,
                        data.speed,
                        dt,
                    ),
                ),
        ensures
            final(self).shooter == old(self).shooter,
            final(self).trails@ == old(self).trails@,
            final(self).projectiles@.len() == old(self).projectiles@.len(),
            forall|i: int|
                0 <= i < old(self).projectiles@.len() ==> {
                    let before = old(self).projectiles@[i];
                    let after = #[trigger] final(self).projectiles@[i];
                    after.rotation == before.rotation && call_ensures(
                        step,
                        (before.position, before.rotation, data.speed, dt),
                        after.position,
                    )
                },
            old(self).links_alive() ==> final(self).links_alive(),
    {
        let mut i: usize = 0;
        while i < self.projectiles.len()
            invariant
                i <= self.projectiles@.len(),
                self.shooter == old(self).shooter,
                self.trails@ == old(self).trails@,
                self.projectiles@.len() == old(self).projectiles@.len(),
                forall|j: int|
                    i <= j < self.projectiles@.len() ==> #[trigger] self.projectiles@[j] == old(
                        self,
                    ).projectiles@[j],
                forall|j: int|
                    0 <= j < old(self).projectiles@.len() ==> call_requires(
                        step,
                        (
                            (#[trigger] old(self).projectiles@[j]).position,
                            old(self).projectiles@[j].rotation,
                            data.speed,
                            dt,
                        ),
                    ),
                forall|j: int|
                    0 <= j < i ==> {
                        let before = old(self).projectiles@[j];
                        let after = #[trigger] self.projectiles@[j];
                        after.rotation == before.rotation && call_ensures(
                            step,
                            (before.position, before.rotation, data.speed, dt),
                            after.position,
                        )
                    },
            decreases self.projectiles@.len() - i,
        {
            let position: P = self.projectiles[i].position;
            let rotation: R = self.projectiles[i].rotation;
            let moved: P = step(position, rotation, data.speed, dt);
            self.projectiles.set(i, Projectile { position: moved, rotation });
            i = i + 1;
        }
    }

    /// One frame of following: every trail takes the position of the
    /// projectile that it refers to.
    pub fn trail_projectile(&mut self)
        requires
            old(self).links_alive(),
        ensures
            final(self).shooter == old(self).shooter,
            final(self).projectiles@ == old(self).projectiles@,
            final(self).trails@ == old(self).trails@.map_values(
                |trail: ProjectileTrail<P>| caught_up(trail, old(self).projectiles@),
            ),
            final(self).trails_on_target(),
            final(self).links_alive(),
    {
        let mut i: usize = 0;
        while i < self.trails.len()
            invariant
                i <= self.trails@.len(),
                self.shooter == old(self).shooter,
                self.projectiles@ == old(self).projectiles@,
                self.trails@.len() == old(self).trails@.len(),
                old(self).links_alive(),
                forall|j: int|
                    i <= j < self.trails@.len() ==> #[trigger] self.trails@[j] == old(
                        self,
                    ).trails@[j],
                forall|j: int|
                    0 <= j < i ==> #[trigger] self.trails@[j] == caught_up(
                        old(self).trails@[j],
                        old(self).projectiles@,
                    ),
            decreases self.trails@.len() - i,
        {
            let target: usize = self.trails[i].projectile;
            let position: P = self.projectiles[target].position;
            self.trails.set(i, ProjectileTrail { projectile: target, position });
            i = i + 1;
        }
        assert(self.trails@ =~= old(self).trails@.map_values(
            |trail: ProjectileTrail<P>| caught_up(trail, old(self).projectiles@),
        ));
    }
}

} // verus!
