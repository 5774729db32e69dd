//! Outside types that the simulation carries through without reading them.
use vstd::prelude::*;

verus! {

/// An entity handle of the ECS world; the library stores and moves it only.
#[verifier::external_type_specification]
#[verifier::external_body]
pub struct ExEntity(bevy_ecs::entity::Entity);

/// A 3D vector of the math crate; the library stores and moves it only.
#[verifier::external_type_specification]
#[verifier::external_body]
pub struct ExVec3(glam::Vec3);

/// The thread-local random number generator of the random crate.
#[verifier::external_type_specification]
#[verifier::external_body]
pub struct ExThreadRng(rand::rngs::ThreadRng);

} // verus!
