//! The frame-rendering core of a real-time GPU renderer: it chooses the
//! presentable-chain configuration from surface capability snapshots,
//! bounds the frames in flight with a fixed ring of fence-guarded slots,
//! models one-shot staged uploads and image-layout transitions, records
//! per-image command sequences, and drives the wait / acquire / update /
//! submit / present / advance loop, with wholesale rebuild on surface
//! invalidation. The device itself is driven by a thin unverified layer
//! that performs the calls and hands their outcomes back as plain values.

use vstd::prelude::*;

pub mod constants;
pub mod device_select;
pub mod driver;
pub mod fps;
pub mod frame_sync;
pub mod image_layout;
pub mod mipmap;
pub mod recorder;
pub mod staging;
pub mod swap_config;

verus! {

} // verus!
