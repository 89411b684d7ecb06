//! Vendor-neutral control of power limits (TDP, boost, thermal throttle limit
//! and power profile) over a closed set of hardware backends.
//!
//! Every operation is split into two halves. A backend first answers a
//! request with the [`tdp::Access`] that the caller must carry out on the
//! backend's transport, or with an error decided without touching hardware.
//! The caller performs that access and hands the [`tdp::Outcome`] back to
//! `complete`, which turns it into the operation's result.

pub mod tdp;
pub mod asus;
pub mod amd;
pub mod intel;
pub mod devices;
