//! The terminal and transition rules of the recursive radiance estimator.
//!
//! One level of the estimator casts a ray, classifies what it met — escape,
//! an emissive surface, absorption, a specular or a diffuse scatter — and
//! either terminates the path or recurses with one bounce fewer.  The
//! numeric kernel reports the classification as a [`PathEvent`]; this module
//! decides, and the kernel performs the decided [`PathAction`]: it looks up
//! the background, multiplies attenuations, and re-casts scattered rays.
//! Radiance and attenuation values pass through untouched as an opaque
//! payload `C`.

use vstd::prelude::*;

verus! {

/// What the cast of one ray met, as the numeric kernel classified it.
pub enum PathEvent<C> {
    /// The ray escaped every surface of the scene.
    Escaped,
    /// The ray met an emissive surface radiating `radiance` toward it.
    EmissiveHit { radiance: C },
    /// The ray met a reflective surface that absorbed it entirely.
    Absorbed,
    /// A specular scatter: follow the one reflected or refracted ray and
    /// weight what it returns by `attenuation`.
    SpecularScatter { attenuation: C },
    /// A diffuse scatter: follow a direction importance-sampled from the
    /// light/material mixture.  `densities_finite` reports whether both the
    /// mixture density and the material density of that direction came out
    /// finite and nonzero.
    DiffuseScatter { attenuation: C, densities_finite: bool },
}

/// What the estimator does with the event at the current depth.
pub enum PathAction<C> {
    /// Terminate the path with zero radiance.
    EmitZero,
    /// Terminate the path with the scene's background radiance for the ray.
    EmitBackground,
    /// Terminate the path with the met surface's emitted radiance.
    Emit { radiance: C },
    /// Recurse along the specular ray with one bounce fewer, and scale the
    /// recursive radiance by `attenuation`.
    FollowSpecular { attenuation: C },
    /// Recurse along the sampled diffuse direction with one bounce fewer,
    /// and scale the recursive radiance by `attenuation` times the ratio of
    /// the material density to the mixture density.
    FollowDiffuse { attenuation: C },
}

/// The estimator's decision for `event` at `depth`, rule by rule: a path out
/// of bounces is truncated to zero radiance; an escaped ray takes the
/// background; an emissive hit terminates with the emitted radiance — an
/// emissive surface does not re-scatter; full absorption terminates with
/// zero; a specular scatter is followed with probability one along its ray;
/// a diffuse scatter is followed only when both sampling densities are
/// finite and nonzero, else the sample counts as zero rather than let a
/// non-finite weight poison the estimate.
pub open spec fn action_of<C>(depth: u32, event: PathEvent<C>) -> PathAction<C> {
    if depth == 0 {
        PathAction::EmitZero
    } else {
        match event {
            PathEvent::Escaped => PathAction::EmitBackground,
            PathEvent::EmissiveHit { radiance } => PathAction::Emit { radiance },
            PathEvent::Absorbed => PathAction::EmitZero,
            PathEvent::SpecularScatter { attenuation } => PathAction::FollowSpecular {
                attenuation,
            },
            PathEvent::DiffuseScatter { attenuation, densities_finite } => {
                if densities_finite {
                    PathAction::FollowDiffuse { attenuation }
                } else {
                    PathAction::EmitZero
                }
            },
        }
    }
}

/// Decides one level of the estimator, following [`action_of`] exactly.
pub fn next_action<C>(depth: u32, event: PathEvent<C>) -> (action: PathAction<C>)
    ensures
        action == action_of(depth, event),
        depth == 0 ==> action is EmitZero,
{
    if depth == 0 {
        return PathAction::EmitZero;
    }
    match event {
        PathEvent::Escaped => PathAction::EmitBackground,
        PathEvent::EmissiveHit { radiance } => PathAction::Emit { radiance },
        PathEvent::Absorbed => PathAction::EmitZero,
        PathEvent::SpecularScatter { attenuation } => PathAction::FollowSpecular { attenuation },
        PathEvent::DiffuseScatter { attenuation, densities_finite } => {
            if densities_finite {
                PathAction::FollowDiffuse { attenuation }
            } else {
                PathAction::EmitZero
            }
        },
    }
}

/// A path out of bounces contributes zero radiance, whatever the cast met:
/// at depth zero the decision is `EmitZero` for every event.
pub proof fn lemma_depth_zero_is_zero_radiance<C>(event: PathEvent<C>)
    ensures
        action_of(0, event) is EmitZero,
{
}

/// In a scene whose every cast escapes — an empty scene — each sample with
/// at least one bounce left takes exactly the background radiance.
pub proof fn lemma_escape_takes_background<C>(depth: u32)
    requires
        depth > 0,
    ensures
        action_of(depth, PathEvent::<C>::Escaped) is EmitBackground,
{
}

/// A cast that meets an emissive surface with at least one bounce left
/// terminates with exactly the emitted radiance: emissive surfaces do not
/// re-scatter, so one bounce suffices for a scene they fill.
pub proof fn lemma_emissive_hit_takes_emitted<C>(depth: u32, radiance: C)
    requires
        depth > 0,
    ensures
        action_of(depth, PathEvent::EmissiveHit { radiance }) == (PathAction::Emit { radiance }),
{
}

} // verus!
