//! Session state of a multi-tab browser shell.
//!
//! The crate tracks the tabs of a window, decides which embedded surface is
//! visible, computes where that surface sits, and turns navigation requests
//! into instructions for the surface. It never touches a window itself: every
//! operation takes what the host observed and returns the instructions the
//! host has to carry out.

pub mod cmd;
pub mod error;
pub mod geometry;
pub mod ident;
pub mod laws;
pub mod layout;
pub mod model;
pub mod navigation;
pub mod surface;
pub mod tab;
pub mod webview;
