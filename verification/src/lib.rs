//! Host-side persistence surface for a dungeon-map editor front end.
//!
//! The native shell of the editor exposes a small set of commands to its
//! web-view front end: file-picker dialogs, unrestricted read/write of
//! user-chosen files, and managed read/write/clear of two application-private
//! JSON catalogues kept under the per-user application data directory.
//!
//! This crate is the verified core of that surface: every decision the
//! commands make — which file each catalogue lives in, what a read of a
//! missing catalogue yields, how dialog cancellation is told apart from an
//! I/O error, and the exact error message each failure produces — is stated
//! in contracts and proved. The shell around it performs the dialogs and the
//! filesystem calls and hands their outcomes to these functions.

pub mod catalogue;
pub mod commands;
pub mod messages;
pub mod model;
