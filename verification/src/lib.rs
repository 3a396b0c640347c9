//! Build-and-publish pipeline: the decisions of a run, verified.
//!
//! A run turns a project directory into an artifact, streams the artifact to a
//! remote content store and binds the returned digest to a logical name. This
//! crate holds every rule of that run as a function from plain values to plain
//! values: what to validate, which command to start, which package and binary a
//! build resolves to, where the artifact is expected, how the results of the two
//! streaming branches combine, and which state follows which event. The caller
//! performs the requested effects (processes, files, network) and hands the
//! replies back.
pub mod text;
pub mod paths;
pub mod seqs;
pub mod process;
pub mod error;
pub mod metadata;
pub mod effect;
pub mod custom;
pub mod rust;
pub mod backend;
pub mod stream;
pub mod pipeline;
pub mod config;
pub mod trigger;
