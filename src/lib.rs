//! Decoding of live rhythm-game telemetry from three wire protocols into one
//! typed data model.

pub mod value;
pub mod error;
pub mod wire;
pub mod common;
pub mod livedata;
pub mod beatsaberplus;
pub mod httpsirastatus;
pub mod mapdata;
pub mod dispatch;
