//! Verified core of a voxel model viewer.
//!
//! The crate holds the decisions of the viewer that do not depend on
//! floating-point arithmetic: which key drives which movement axis, which
//! pointer samples survive until the next frame and with which integer factor
//! they enter the integration, how vertex and instance records are laid out in
//! a buffer, and how a parsed voxel scene becomes a list of coloured instances.
//! The host application multiplies, rotates and uploads.
pub mod camera;
pub mod model;
