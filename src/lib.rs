//! Instanced drawing of entities that share a mesh and a material but carry
//! their own per-instance records.
//!
//! Each frame, an entity's instance records become the bytes of an instance
//! buffer ([`instance`]); each visible entity gets a pipeline key built from
//! its view, mesh and material ([`pipeline`]), whose compiled pipeline is
//! kept once per key ([`cache`]); the draw is routed to the render phase of
//! its alpha mode ([`queue`]); and the draw itself binds the mesh and the
//! instance buffer and issues one instanced draw ([`draw`]).
pub mod instance;
pub mod pipeline;
pub mod cache;
pub mod queue;
pub mod draw;
