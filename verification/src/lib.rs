//! Dispatch of a code fragment to a language backend.
//!
//! A caller describes one run request as a [`context::DataHolder`]. A
//! [`registry::Registry`] ranks the backends that claim the request's
//! filetype, and a [`pipeline::Pipeline`] takes the chosen backend through its
//! stages. Every touch of the host (a directory, a file, a process) is handed
//! to the caller as an [`pipeline::Action`] and comes back as an
//! [`pipeline::Event`], so the decisions are all made, and proved, here.

pub mod context;
pub mod error;
pub mod interpreter;
pub mod interpreters;
pub mod level;
pub mod pipeline;
pub mod process;
pub mod registry;
pub mod text;
pub mod workspace;
