//! Decision logic for a one-shot, headless GPU compute render.
//!
//! A caller that owns a GPU device drives one render through five stages:
//! device negotiation, pipeline construction, resource allocation, dispatch
//! submission, and readback. Everything those stages decide or compute on
//! plain values is here, verified: the inline parameter block's byte layout,
//! the workgroup grid that covers the image, the staging-buffer sizing and
//! row pitch, the repacking of padded rows into a tight pixel buffer, the
//! device-limit derivation, the error taxonomy, and the step function of the
//! stage machine itself. The GPU calls live outside, in the unverified shell
//! that feeds events into the stage machine.

pub mod context;
pub mod error;
pub mod params;
pub mod plan;
pub mod readback;
pub mod session;

pub use error::RenderError;
