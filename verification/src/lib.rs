//! The deciding core of a recursive path tracer for scenes of spheres and
//! planes.
//!
//! A path tracer computes with floating-point numbers and decides on them:
//! which root of a quadratic is a hit, which hit is the closest, whether a
//! surface scatters a ray or absorbs it, how deep a path may go, how a frame
//! is blended into the image. This crate holds the decisions, each with a
//! proved contract. The numbers are binary32 values held by their bit
//! pattern ([`scalar::Scalar`]); the arithmetic that produces them, the
//! random source and the pixel buffer belong to the host, which hands the
//! crate what it computed ([`body::Probe`], [`material::ScatterSample`]) and
//! acts on what the crate decides.

pub mod body;
pub mod camera;
pub mod interval;
pub mod material;
pub mod ray;
pub mod scalar;
pub mod vector;
