//! A verified model of the Intel RealSense SDK 2.0 (librealsense2) object
//! layer: enumerations of the C headers, errors, stream profiles, frames,
//! devices, pipeline state, configuration requests and processing-block
//! descriptions.
//!
//! The C calls themselves are made by the caller, which hands their outcomes
//! to this library; every decision taken on those outcomes is made and
//! verified here.

pub mod config;
pub mod context;
pub mod device;
pub mod error;
pub mod frame;
pub mod kind;
pub mod pipeline;
pub mod processing;
pub mod stream_profile;
pub mod text;

pub use config::{Config, ConfigRequest};
pub use context::{api_version, Context};
pub use device::{Device, DeviceIter, DeviceList};
pub use error::{Rs2Error, Rs2Exception};
pub use frame::{Frame, FrameSet};
pub use kind::{
    Rs2CameraInfo, Rs2Distortion, Rs2ExceptionType, Rs2Extension, Rs2Format, Rs2Option,
    Rs2StreamKind,
};
pub use pipeline::{ActiveProfile, Pipeline};
pub use processing::{
    align_to_color, decimation, hole_filling, pointcloud, spatial, temporal, ProcessingBlock,
};
pub use stream_profile::{StreamProfile, StreamProfileList};
