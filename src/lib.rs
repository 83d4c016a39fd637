//! Synthesis of a companion builder for a record type.
//!
//! The pass reads a plain description of a record declaration ([`decl`]),
//! extracts per-field directives ([`directive`]), classifies each field's
//! declared type against the optional and repeated wrappers ([`classify`]),
//! decides a plan for each field ([`plan`]) and assembles the generated
//! artifacts ([`synth`]). [`model`] gives the behaviour of the generated
//! builder, and [`laws`] states what holds of every generated builder.
//! [`text`] holds string helpers.
use vstd::prelude::*;

pub mod decl;
pub mod text;
pub mod classify;
pub mod directive;
pub mod plan;
pub mod synth;
pub mod model;
pub mod laws;
