//! Enumerations mirroring the C headers of librealsense2.

use vstd::prelude::*;

pub mod product_line;

verus! {

/// Exception categories reported by librealsense2 (`rs2_exception_type`).
///
/// The code of each variant, given by `code`, is the value of the matching
/// constant of the C headers.
#[derive(Debug, Clone, Copy, PartialEq, Eq, Hash, Structural)]
pub enum Rs2ExceptionType {
    Unknown,
    CameraDisconnected,
    Backend,
    InvalidValue,
    WrongApiCallSequence,
    NotImplemented,
    DeviceInRecoveryMode,
    Io,
    Count,
}

impl Rs2ExceptionType {
    /// The C value of this variant.
    pub open spec fn code(self) -> int {
        match self {
            Rs2ExceptionType::Unknown => 0,
            Rs2ExceptionType::CameraDisconnected => 1,
            Rs2ExceptionType::Backend => 2,
            Rs2ExceptionType::InvalidValue => 3,
            Rs2ExceptionType::WrongApiCallSequence => 4,
            Rs2ExceptionType::NotImplemented => 5,
            Rs2ExceptionType::DeviceInRecoveryMode => 6,
            Rs2ExceptionType::Io => 7,
            Rs2ExceptionType::Count => 8,
        }
    }

    /// Converts to the C value passed to librealsense2.
    pub fn to_i32(self) -> (r: i32)
        ensures
            r == self.code(),
    {
        match self {
            Rs2ExceptionType::Unknown => 0,
            Rs2ExceptionType::CameraDisconnected => 1,
            Rs2ExceptionType::Backend => 2,
            Rs2ExceptionType::InvalidValue => 3,
            Rs2ExceptionType::WrongApiCallSequence => 4,
            Rs2ExceptionType::NotImplemented => 5,
            Rs2ExceptionType::DeviceInRecoveryMode => 6,
            Rs2ExceptionType::Io => 7,
            Rs2ExceptionType::Count => 8,
        }
    }
}

/// Device information fields (`rs2_camera_info`).
///
/// The code of each variant, given by `code`, is the value of the matching
/// constant of the C headers.
#[derive(Debug, Clone, Copy, PartialEq, Eq, Hash, Structural)]
pub enum Rs2CameraInfo {
    Name,
    SerialNumber,
    FirmwareVersion,
    RecommendedFirmwareVersion,
    PhysicalPort,
    DebugOpCode,
    AdvancedMode,
    ProductId,
    CameraLocked,
    UsbTypeDescriptor,
    ProductLine,
    AsicSerialNumber,
    FirmwareUpdateId,
    IpAddress,
    DfuDevicePath,
    ConnectionType,
    SmcuFwVersion,
    ImuType,
    MipiDriverVersion,
    Count,
}

impl Rs2CameraInfo {
    /// The C value of this variant.
    pub open spec fn code(self) -> int {
        match self {
            Rs2CameraInfo::Name => 0,
            Rs2CameraInfo::SerialNumber => 1,
            Rs2CameraInfo::FirmwareVersion => 2,
            Rs2CameraInfo::RecommendedFirmwareVersion => 3,
            Rs2CameraInfo::PhysicalPort => 4,
            Rs2CameraInfo::DebugOpCode => 5,
            Rs2CameraInfo::AdvancedMode => 6,
            Rs2CameraInfo::ProductId => 7,
            Rs2CameraInfo::CameraLocked => 8,
            Rs2CameraInfo::UsbTypeDescriptor => 9,
            Rs2CameraInfo::ProductLine => 10,
            Rs2CameraInfo::AsicSerialNumber => 11,
            Rs2CameraInfo::FirmwareUpdateId => 12,
            Rs2CameraInfo::IpAddress => 13,
            Rs2CameraInfo::DfuDevicePath => 14,
            Rs2CameraInfo::ConnectionType => 15,
            Rs2CameraInfo::SmcuFwVersion => 16,
            Rs2CameraInfo::ImuType => 17,
            Rs2CameraInfo::MipiDriverVersion => 18,
            Rs2CameraInfo::Count => 19,
        }
    }

    /// Converts to the C value passed to librealsense2.
    pub fn to_i32(self) -> (r: i32)
        ensures
            r == self.code(),
    {
        match self {
            Rs2CameraInfo::Name => 0,
            Rs2CameraInfo::SerialNumber => 1,
            Rs2CameraInfo::FirmwareVersion => 2,
            Rs2CameraInfo::RecommendedFirmwareVersion => 3,
            Rs2CameraInfo::PhysicalPort => 4,
            Rs2CameraInfo::DebugOpCode => 5,
            Rs2CameraInfo::AdvancedMode => 6,
            Rs2CameraInfo::ProductId => 7,
            Rs2CameraInfo::CameraLocked => 8,
            Rs2CameraInfo::UsbTypeDescriptor => 9,
            Rs2CameraInfo::ProductLine => 10,
            Rs2CameraInfo::AsicSerialNumber => 11,
            Rs2CameraInfo::FirmwareUpdateId => 12,
            Rs2CameraInfo::IpAddress => 13,
            Rs2CameraInfo::DfuDevicePath => 14,
            Rs2CameraInfo::ConnectionType => 15,
            Rs2CameraInfo::SmcuFwVersion => 16,
            Rs2CameraInfo::ImuType => 17,
            Rs2CameraInfo::MipiDriverVersion => 18,
            Rs2CameraInfo::Count => 19,
        }
    }
}

/// Stream types (`rs2_stream`).
///
/// The code of each variant, given by `code`, is the value of the matching
/// constant of the C headers.
#[derive(Debug, Clone, Copy, PartialEq, Eq, Hash, Structural)]
pub enum Rs2StreamKind {
    Any,
    Depth,
    Color,
    Infrared,
    Fisheye,
    Gyro,
    Accel,
    Gpio,
    Pose,
    Confidence,
    Motion,
    Safety,
    Occupancy,
    LabeledPointCloud,
    ObjectDetection,
    Count,
}

impl Rs2StreamKind {
    /// The C value of this variant.
    pub open spec fn code(self) -> int {
        match self {
            Rs2StreamKind::Any => 0,
            Rs2StreamKind::Depth => 1,
            Rs2StreamKind::Color => 2,
            Rs2StreamKind::Infrared => 3,
            Rs2StreamKind::Fisheye => 4,
            Rs2StreamKind::Gyro => 5,
            Rs2StreamKind::Accel => 6,
            Rs2StreamKind::Gpio => 7,
            Rs2StreamKind::Pose => 8,
            Rs2StreamKind::Confidence => 9,
            Rs2StreamKind::Motion => 10,
            Rs2StreamKind::Safety => 11,
            Rs2StreamKind::Occupancy => 12,
            Rs2StreamKind::LabeledPointCloud => 13,
            Rs2StreamKind::ObjectDetection => 14,
            Rs2StreamKind::Count => 15,
        }
    }

    /// Converts to the C value passed to librealsense2.
    pub fn to_i32(self) -> (r: i32)
        ensures
            r == self.code(),
    {
        match self {
            Rs2StreamKind::Any => 0,
            Rs2StreamKind::Depth => 1,
            Rs2StreamKind::Color => 2,
            Rs2StreamKind::Infrared => 3,
            Rs2StreamKind::Fisheye => 4,
            Rs2StreamKind::Gyro => 5,
            Rs2StreamKind::Accel => 6,
            Rs2StreamKind::Gpio => 7,
            Rs2StreamKind::Pose => 8,
            Rs2StreamKind::Confidence => 9,
            Rs2StreamKind::Motion => 10,
            Rs2StreamKind::Safety => 11,
            Rs2StreamKind::Occupancy => 12,
            Rs2StreamKind::LabeledPointCloud => 13,
            Rs2StreamKind::ObjectDetection => 14,
            Rs2StreamKind::Count => 15,
        }
    }
}

/// Pixel and data formats (`rs2_format`).
///
/// The code of each variant, given by `code`, is the value of the matching
/// constant of the C headers.
#[derive(Debug, Clone, Copy, PartialEq, Eq, Hash, Structural)]
pub enum Rs2Format {
    Any,
    Z16,
    Disparity16,
    Xyz32f,
    Yuyv,
    Rgb8,
    Bgr8,
    Rgba8,
    Bgra8,
    Y8,
    Y16,
    Raw10,
    Raw16,
    Raw8,
    Uyvy,
    MotionRaw,
    MotionXyz32f,
    GpioRaw,
    SixDof,
    Disparity32,
    Y10bpack,
    Distance,
    Mjpeg,
    Y8i,
    Y12i,
    Inzi,
    Invi,
    W10,
    Z16h,
    Fg,
    Y411,
    Y16i,
    M420,
    CombinedMotion,
    Nv12,
    Count,
}

impl Rs2Format {
    /// The C value of this variant.
    pub open spec fn code(self) -> int {
        match self {
            Rs2Format::Any => 0,
            Rs2Format::Z16 => 1,
            Rs2Format::Disparity16 => 2,
            Rs2Format::Xyz32f => 3,
            Rs2Format::Yuyv => 4,
            Rs2Format::Rgb8 => 5,
            Rs2Format::Bgr8 => 6,
            Rs2Format::Rgba8 => 7,
            Rs2Format::Bgra8 => 8,
            Rs2Format::Y8 => 9,
            Rs2Format::Y16 => 10,
            Rs2Format::Raw10 => 11,
            Rs2Format::Raw16 => 12,
            Rs2Format::Raw8 => 13,
            Rs2Format::Uyvy => 14,
            Rs2Format::MotionRaw => 15,
            Rs2Format::MotionXyz32f => 16,
            Rs2Format::GpioRaw => 17,
            Rs2Format::SixDof => 18,
            Rs2Format::Disparity32 => 19,
            Rs2Format::Y10bpack => 20,
            Rs2Format::Distance => 21,
            Rs2Format::Mjpeg => 22,
            Rs2Format::Y8i => 23,
            Rs2Format::Y12i => 24,
            Rs2Format::Inzi => 25,
            Rs2Format::Invi => 26,
            Rs2Format::W10 => 27,
            Rs2Format::Z16h => 28,
            Rs2Format::Fg => 29,
            Rs2Format::Y411 => 30,
            Rs2Format::Y16i => 31,
            Rs2Format::M420 => 32,
            Rs2Format::CombinedMotion => 33,
            Rs2Format::Nv12 => 34,
            Rs2Format::Count => 35,
        }
    }

    /// Converts to the C value passed to librealsense2.
    pub fn to_i32(self) -> (r: i32)
        ensures
            r == self.code(),
    {
        match self {
            Rs2Format::Any => 0,
            Rs2Format::Z16 => 1,
            Rs2Format::Disparity16 => 2,
            Rs2Format::Xyz32f => 3,
            Rs2Format::Yuyv => 4,
            Rs2Format::Rgb8 => 5,
            Rs2Format::Bgr8 => 6,
            Rs2Format::Rgba8 => 7,
            Rs2Format::Bgra8 => 8,
            Rs2Format::Y8 => 9,
            Rs2Format::Y16 => 10,
            Rs2Format::Raw10 => 11,
            Rs2Format::Raw16 => 12,
            Rs2Format::Raw8 => 13,
            Rs2Format::Uyvy => 14,
            Rs2Format::MotionRaw => 15,
            Rs2Format::MotionXyz32f => 16,
            Rs2Format::GpioRaw => 17,
            Rs2Format::SixDof => 18,
            Rs2Format::Disparity32 => 19,
            Rs2Format::Y10bpack => 20,
            Rs2Format::Distance => 21,
            Rs2Format::Mjpeg => 22,
            Rs2Format::Y8i => 23,
            Rs2Format::Y12i => 24,
            Rs2Format::Inzi => 25,
            Rs2Format::Invi => 26,
            Rs2Format::W10 => 27,
            Rs2Format::Z16h => 28,
            Rs2Format::Fg => 29,
            Rs2Format::Y411 => 30,
            Rs2Format::Y16i => 31,
            Rs2Format::M420 => 32,
            Rs2Format::CombinedMotion => 33,
            Rs2Format::Nv12 => 34,
            Rs2Format::Count => 35,
        }
    }
}

/// Lens distortion models (`rs2_distortion`).
///
/// The code of each variant, given by `code`, is the value of the matching
/// constant of the C headers.
#[derive(Debug, Clone, Copy, PartialEq, Eq, Hash, Structural)]
pub enum Rs2Distortion {
    NoDistortion,
    ModifiedBrownConrady,
    InverseBrownConrady,
    Ftheta,
    BrownConrady,
    KannalaBrandt4,
    Count,
}

impl Rs2Distortion {
    /// The C value of this variant.
    pub open spec fn code(self) -> int {
        match self {
            Rs2Distortion::NoDistortion => 0,
            Rs2Distortion::ModifiedBrownConrady => 1,
            Rs2Distortion::InverseBrownConrady => 2,
            Rs2Distortion::Ftheta => 3,
            Rs2Distortion::BrownConrady => 4,
            Rs2Distortion::KannalaBrandt4 => 5,
            Rs2Distortion::Count => 6,
        }
    }

    /// Converts to the C value passed to librealsense2.
    pub fn to_i32(self) -> (r: i32)
        ensures
            r == self.code(),
    {
        match self {
            Rs2Distortion::NoDistortion => 0,
            Rs2Distortion::ModifiedBrownConrady => 1,
            Rs2Distortion::InverseBrownConrady => 2,
            Rs2Distortion::Ftheta => 3,
            Rs2Distortion::BrownConrady => 4,
            Rs2Distortion::KannalaBrandt4 => 5,
            Rs2Distortion::Count => 6,
        }
    }
}

/// Interface extensions of frames, devices and blocks (`rs2_extension`).
///
/// The code of each variant, given by `code`, is the value of the matching
/// constant of the C headers.
#[derive(Debug, Clone, Copy, PartialEq, Eq, Hash, Structural)]
pub enum Rs2Extension {
    Unknown,
    Debug,
    Info,
    Motion,
    Options,
    Video,
    Roi,
    DepthSensor,
    VideoFrame,
    MotionFrame,
    CompositeFrame,
    Points,
    DepthFrame,
    AdvancedMode,
    Record,
    VideoProfile,
    Playback,
    DepthStereoSensor,
    DisparityFrame,
    MotionProfile,
    PoseFrame,
    PoseProfile,
    Tm2,
    SoftwareDevice,
    SoftwareSensor,
    DecimationFilter,
    ThresholdFilter,
    DisparityFilter,
    SpatialFilter,
    TemporalFilter,
    HoleFillingFilter,
    ZeroOrderFilter,
    RecommendedFilters,
    Pose,
    PoseSensor,
    WheelOdometer,
    GlobalTimer,
    Updatable,
    UpdateDevice,
    L500DepthSensor,
    Tm2Sensor,
    AutoCalibratedDevice,
    ColorSensor,
    MotionSensor,
    FisheyeSensor,
    DepthHuffmanDecoder,
    Serializable,
    FwLogger,
    AutoCalibrationFilter,
    DeviceCalibration,
    CalibratedSensor,
    HdrMerge,
    SequenceIdFilter,
    MaxUsableRangeSensor,
    DebugStreamSensor,
    CalibrationChangeDevice,
    RotationFilter,
    SafetySensor,
    DepthMappingSensor,
    LabeledPoints,
    EthConfig,
    SupportedEmbeddedFilters,
    DecimationEmbeddedFilter,
    TemporalEmbeddedFilter,
    CloseRangeEmbeddedFilter,
    InferenceFrame,
    ObjectDetectionFrame,
    InferenceSensor,
    ObjectDetectionSensor,
    InferenceProfile,
    Count,
}

impl Rs2Extension {
    /// The C value of this variant.
    pub open spec fn code(self) -> int {
        match self {
            Rs2Extension::Unknown => 0,
            Rs2Extension::Debug => 1,
            Rs2Extension::Info => 2,
            Rs2Extension::Motion => 3,
            Rs2Extension::Options => 4,
            Rs2Extension::Video => 5,
            Rs2Extension::Roi => 6,
            Rs2Extension::DepthSensor => 7,
            Rs2Extension::VideoFrame => 8,
            Rs2Extension::MotionFrame => 9,
            Rs2Extension::CompositeFrame => 10,
            Rs2Extension::Points => 11,
            Rs2Extension::DepthFrame => 12,
            Rs2Extension::AdvancedMode => 13,
            Rs2Extension::Record => 14,
            Rs2Extension::VideoProfile => 15,
            Rs2Extension::Playback => 16,
            Rs2Extension::DepthStereoSensor => 17,
            Rs2Extension::DisparityFrame => 18,
            Rs2Extension::MotionProfile => 19,
            Rs2Extension::PoseFrame => 20,
            Rs2Extension::PoseProfile => 21,
            Rs2Extension::Tm2 => 22,
            Rs2Extension::SoftwareDevice => 23,
            Rs2Extension::SoftwareSensor => 24,
            Rs2Extension::DecimationFilter => 25,
            Rs2Extension::ThresholdFilter => 26,
            Rs2Extension::DisparityFilter => 27,
            Rs2Extension::SpatialFilter => 28,
            Rs2Extension::TemporalFilter => 29,
            Rs2Extension::HoleFillingFilter => 30,
            Rs2Extension::ZeroOrderFilter => 31,
            Rs2Extension::RecommendedFilters => 32,
            Rs2Extension::Pose => 33,
            Rs2Extension::PoseSensor => 34,
            Rs2Extension::WheelOdometer => 35,
            Rs2Extension::GlobalTimer => 36,
            Rs2Extension::Updatable => 37,
            Rs2Extension::UpdateDevice => 38,
            Rs2Extension::L500DepthSensor => 39,
            Rs2Extension::Tm2Sensor => 40,
            Rs2Extension::AutoCalibratedDevice => 41,
            Rs2Extension::ColorSensor => 42,
            Rs2Extension::MotionSensor => 43,
            Rs2Extension::FisheyeSensor => 44,
            Rs2Extension::DepthHuffmanDecoder => 45,
            Rs2Extension::Serializable => 46,
            Rs2Extension::FwLogger => 47,
            Rs2Extension::AutoCalibrationFilter => 48,
            Rs2Extension::DeviceCalibration => 49,
            Rs2Extension::CalibratedSensor => 50,
            Rs2Extension::HdrMerge => 51,
            Rs2Extension::SequenceIdFilter => 52,
            Rs2Extension::MaxUsableRangeSensor => 53,
            Rs2Extension::DebugStreamSensor => 54,
            Rs2Extension::CalibrationChangeDevice => 55,
            Rs2Extension::RotationFilter => 56,
            Rs2Extension::SafetySensor => 57,
            Rs2Extension::DepthMappingSensor => 58,
            Rs2Extension::LabeledPoints => 59,
            Rs2Extension::EthConfig => 60,
            Rs2Extension::SupportedEmbeddedFilters => 61,
            Rs2Extension::DecimationEmbeddedFilter => 62,
            Rs2Extension::TemporalEmbeddedFilter => 63,
            Rs2Extension::CloseRangeEmbeddedFilter => 64,
            Rs2Extension::InferenceFrame => 65,
            Rs2Extension::ObjectDetectionFrame => 66,
            Rs2Extension::InferenceSensor => 67,
            Rs2Extension::ObjectDetectionSensor => 68,
            Rs2Extension::InferenceProfile => 69,
            Rs2Extension::Count => 70,
        }
    }

    /// Converts to the C value passed to librealsense2.
    pub fn to_i32(self) -> (r: i32)
        ensures
            r == self.code(),
    {
        match self {
            Rs2Extension::Unknown => 0,
            Rs2Extension::Debug => 1,
            Rs2Extension::Info => 2,
            Rs2Extension::Motion => 3,
            Rs2Extension::Options => 4,
            Rs2Extension::Video => 5,
            Rs2Extension::Roi => 6,
            Rs2Extension::DepthSensor => 7,
            Rs2Extension::VideoFrame => 8,
            Rs2Extension::MotionFrame => 9,
            Rs2Extension::CompositeFrame => 10,
            Rs2Extension::Points => 11,
            Rs2Extension::DepthFrame => 12,
            Rs2Extension::AdvancedMode => 13,
            Rs2Extension::Record => 14,
            Rs2Extension::VideoProfile => 15,
            Rs2Extension::Playback => 16,
            Rs2Extension::DepthStereoSensor => 17,
            Rs2Extension::DisparityFrame => 18,
            Rs2Extension::MotionProfile => 19,
            Rs2Extension::PoseFrame => 20,
            Rs2Extension::PoseProfile => 21,
            Rs2Extension::Tm2 => 22,
            Rs2Extension::SoftwareDevice => 23,
            Rs2Extension::SoftwareSensor => 24,
            Rs2Extension::DecimationFilter => 25,
            Rs2Extension::ThresholdFilter => 26,
            Rs2Extension::DisparityFilter => 27,
            Rs2Extension::SpatialFilter => 28,
            Rs2Extension::TemporalFilter => 29,
            Rs2Extension::HoleFillingFilter => 30,
            Rs2Extension::ZeroOrderFilter => 31,
            Rs2Extension::RecommendedFilters => 32,
            Rs2Extension::Pose => 33,
            Rs2Extension::PoseSensor => 34,
            Rs2Extension::WheelOdometer => 35,
            Rs2Extension::GlobalTimer => 36,
            Rs2Extension::Updatable => 37,
            Rs2Extension::UpdateDevice => 38,
            Rs2Extension::L500DepthSensor => 39,
            Rs2Extension::Tm2Sensor => 40,
            Rs2Extension::AutoCalibratedDevice => 41,
            Rs2Extension::ColorSensor => 42,
            Rs2Extension::MotionSensor => 43,
            Rs2Extension::FisheyeSensor => 44,
            Rs2Extension::DepthHuffmanDecoder => 45,
            Rs2Extension::Serializable => 46,
            Rs2Extension::FwLogger => 47,
            Rs2Extension::AutoCalibrationFilter => 48,
            Rs2Extension::DeviceCalibration => 49,
            Rs2Extension::CalibratedSensor => 50,
            Rs2Extension::HdrMerge => 51,
            Rs2Extension::SequenceIdFilter => 52,
            Rs2Extension::MaxUsableRangeSensor => 53,
            Rs2Extension::DebugStreamSensor => 54,
            Rs2Extension::CalibrationChangeDevice => 55,
            Rs2Extension::RotationFilter => 56,
            Rs2Extension::SafetySensor => 57,
            Rs2Extension::DepthMappingSensor => 58,
            Rs2Extension::LabeledPoints => 59,
            Rs2Extension::EthConfig => 60,
            Rs2Extension::SupportedEmbeddedFilters => 61,
            Rs2Extension::DecimationEmbeddedFilter => 62,
            Rs2Extension::TemporalEmbeddedFilter => 63,
            Rs2Extension::CloseRangeEmbeddedFilter => 64,
            Rs2Extension::InferenceFrame => 65,
            Rs2Extension::ObjectDetectionFrame => 66,
            Rs2Extension::InferenceSensor => 67,
            Rs2Extension::ObjectDetectionSensor => 68,
            Rs2Extension::InferenceProfile => 69,
            Rs2Extension::Count => 70,
        }
    }
}

/// Sensor and processing-block options (`rs2_option`).
///
/// The code of each variant, given by `code`, is the value of the matching
/// constant of the C headers.
#[derive(Debug, Clone, Copy, PartialEq, Eq, Hash, Structural)]
pub enum Rs2Option {
    BacklightCompensation,
    Brightness,
    Contrast,
    Exposure,
    Gain,
    Gamma,
    Hue,
    Saturation,
    Sharpness,
    WhiteBalance,
    EnableAutoExposure,
    EnableAutoWhiteBalance,
    VisualPreset,
    LaserPower,
    Accuracy,
    MotionRange,
    FilterOption,
    ConfidenceThreshold,
    EmitterEnabled,
    FramesQueueSize,
    TotalFrameDrops,
    AutoExposureMode,
    PowerLineFrequency,
    AsicTemperature,
    ErrorPollingEnabled,
    ProjectorTemperature,
    OutputTriggerEnabled,
    MotionModuleTemperature,
    DepthUnits,
    EnableMotionCorrection,
    AutoExposurePriority,
    ColorScheme,
    HistogramEqualizationEnabled,
    MinDistance,
    MaxDistance,
    TextureSource,
    FilterMagnitude,
    FilterSmoothAlpha,
    FilterSmoothDelta,
    HolesFill,
    Stereobaseline,
    AutoExposureConvergeStep,
    InterCamSyncMode,
    StreamFilter,
    StreamFormatFilter,
    StreamIndexFilter,
    EmitterOnOff,
    ZeroOrderPointX,
    ZeroOrderPointY,
    LldTemperature,
    McTemperature,
    MaTemperature,
    HardwarePreset,
    GlobalTimeEnabled,
    ApdTemperature,
    EnableMapping,
    EnableRelocalization,
    EnablePoseJumping,
    EnableDynamicCalibration,
    DepthOffset,
    LedPower,
    ZeroOrderEnabled,
    EnableMapPreservation,
    FreefallDetectionEnabled,
    AvalanchePhotoDiode,
    PostProcessingSharpening,
    PreProcessingSharpening,
    NoiseFiltering,
    InvalidationBypass,
    DigitalGain,
    SensorMode,
    EmitterAlwaysOn,
    ThermalCompensation,
    TriggerCameraAccuracyHealth,
    ResetCameraAccuracyHealth,
    HostPerformance,
    HdrEnabled,
    SequenceName,
    SequenceSize,
    SequenceId,
    HumidityTemperature,
    EnableMaxUsableRange,
    AlternateIr,
    NoiseEstimation,
    EnableIrReflectivity,
    AutoExposureLimit,
    AutoGainLimit,
    AutoRxSensitivity,
    TransmitterFrequency,
    VerticalBinning,
    ReceiverSensitivity,
    AutoExposureLimitToggle,
    AutoGainLimitToggle,
    EmitterFrequency,
    DepthAutoExposureMode,
    OhmTemperature,
    SocPvtTemperature,
    GyroSensitivity,
    RegionOfInterest,
    Rotation,
    SafetyPresetActiveIndex,
    SafetyMode,
    RgbTnrEnabled,
    SafetyMcuTemperature,
    LeftIrTemperature,
    EmbeddedFilterEnabled,
    DisparityShift,
    Threshold,
    DownscaleRatio,
    Count,
}

impl Rs2Option {
    /// The C value of this variant.
    pub open spec fn code(self) -> int {
        match self {
            Rs2Option::BacklightCompensation => 0,
            Rs2Option::Brightness => 1,
            Rs2Option::Contrast => 2,
            Rs2Option::Exposure => 3,
            Rs2Option::Gain => 4,
            Rs2Option::Gamma => 5,
            Rs2Option::Hue => 6,
            Rs2Option::Saturation => 7,
            Rs2Option::Sharpness => 8,
            Rs2Option::WhiteBalance => 9,
            Rs2Option::EnableAutoExposure => 10,
            Rs2Option::EnableAutoWhiteBalance => 11,
            Rs2Option::VisualPreset => 12,
            Rs2Option::LaserPower => 13,
            Rs2Option::Accuracy => 14,
            Rs2Option::MotionRange => 15,
            Rs2Option::FilterOption => 16,
            Rs2Option::ConfidenceThreshold => 17,
            Rs2Option::EmitterEnabled => 18,
            Rs2Option::FramesQueueSize => 19,
            Rs2Option::TotalFrameDrops => 20,
            Rs2Option::AutoExposureMode => 21,
            Rs2Option::PowerLineFrequency => 22,
            Rs2Option::AsicTemperature => 23,
            Rs2Option::ErrorPollingEnabled => 24,
            Rs2Option::ProjectorTemperature => 25,
            Rs2Option::OutputTriggerEnabled => 26,
            Rs2Option::MotionModuleTemperature => 27,
            Rs2Option::DepthUnits => 28,
            Rs2Option::EnableMotionCorrection => 29,
            Rs2Option::AutoExposurePriority => 30,
            Rs2Option::ColorScheme => 31,
            Rs2Option::HistogramEqualizationEnabled => 32,
            Rs2Option::MinDistance => 33,
            Rs2Option::MaxDistance => 34,
            Rs2Option::TextureSource => 35,
            Rs2Option::FilterMagnitude => 36,
            Rs2Option::FilterSmoothAlpha => 37,
            Rs2Option::FilterSmoothDelta => 38,
            Rs2Option::HolesFill => 39,
            Rs2Option::Stereobaseline => 40,
            Rs2Option::AutoExposureConvergeStep => 41,
            Rs2Option::InterCamSyncMode => 42,
            Rs2Option::StreamFilter => 43,
            Rs2Option::StreamFormatFilter => 44,
            Rs2Option::StreamIndexFilter => 45,
            Rs2Option::EmitterOnOff => 46,
            Rs2Option::ZeroOrderPointX => 47,
            Rs2Option::ZeroOrderPointY => 48,
            Rs2Option::LldTemperature => 49,
            Rs2Option::McTemperature => 50,
            Rs2Option::MaTemperature => 51,
            Rs2Option::HardwarePreset => 52,
            Rs2Option::GlobalTimeEnabled => 53,
            Rs2Option::ApdTemperature => 54,
            Rs2Option::EnableMapping => 55,
            Rs2Option::EnableRelocalization => 56,
            Rs2Option::EnablePoseJumping => 57,
            Rs2Option::EnableDynamicCalibration => 58,
            Rs2Option::DepthOffset => 59,
            Rs2Option::LedPower => 60,
            Rs2Option::ZeroOrderEnabled => 61,
            Rs2Option::EnableMapPreservation => 62,
            Rs2Option::FreefallDetectionEnabled => 63,
            Rs2Option::AvalanchePhotoDiode => 64,
            Rs2Option::PostProcessingSharpening => 65,
            Rs2Option::PreProcessingSharpening => 66,
            Rs2Option::NoiseFiltering => 67,
            Rs2Option::InvalidationBypass => 68,
            Rs2Option::DigitalGain => 69,
            Rs2Option::SensorMode => 70,
            Rs2Option::EmitterAlwaysOn => 71,
            Rs2Option::ThermalCompensation => 72,
            Rs2Option::TriggerCameraAccuracyHealth => 73,
            Rs2Option::ResetCameraAccuracyHealth => 74,
            Rs2Option::HostPerformance => 75,
            Rs2Option::HdrEnabled => 76,
            Rs2Option::SequenceName => 77,
            Rs2Option::SequenceSize => 78,
            Rs2Option::SequenceId => 79,
            Rs2Option::HumidityTemperature => 80,
            Rs2Option::EnableMaxUsableRange => 81,
            Rs2Option::AlternateIr => 82,
            Rs2Option::NoiseEstimation => 83,
            Rs2Option::EnableIrReflectivity => 84,
            Rs2Option::AutoExposureLimit => 85,
            Rs2Option::AutoGainLimit => 86,
            Rs2Option::AutoRxSensitivity => 87,
            Rs2Option::TransmitterFrequency => 88,
            Rs2Option::VerticalBinning => 89,
            Rs2Option::ReceiverSensitivity => 90,
            Rs2Option::AutoExposureLimitToggle => 91,
            Rs2Option::AutoGainLimitToggle => 92,
            Rs2Option::EmitterFrequency => 93,
            Rs2Option::DepthAutoExposureMode => 94,
            Rs2Option::OhmTemperature => 95,
            Rs2Option::SocPvtTemperature => 96,
            Rs2Option::GyroSensitivity => 97,
            Rs2Option::RegionOfInterest => 98,
            Rs2Option::Rotation => 99,
            Rs2Option::SafetyPresetActiveIndex => 100,
            Rs2Option::SafetyMode => 101,
            Rs2Option::RgbTnrEnabled => 102,
            Rs2Option::SafetyMcuTemperature => 103,
            Rs2Option::LeftIrTemperature => 104,
            Rs2Option::EmbeddedFilterEnabled => 105,
            Rs2Option::DisparityShift => 106,
            Rs2Option::Threshold => 107,
            Rs2Option::DownscaleRatio => 108,
            Rs2Option::Count => 109,
        }
    }

    /// Converts to the C value passed to librealsense2.
    pub fn to_i32(self) -> (r: i32)
        ensures
            r == self.code(),
    {
        match self {
            Rs2Option::BacklightCompensation => 0,
            Rs2Option::Brightness => 1,
            Rs2Option::Contrast => 2,
            Rs2Option::Exposure => 3,
            Rs2Option::Gain => 4,
            Rs2Option::Gamma => 5,
            Rs2Option::Hue => 6,
            Rs2Option::Saturation => 7,
            Rs2Option::Sharpness => 8,
            Rs2Option::WhiteBalance => 9,
            Rs2Option::EnableAutoExposure => 10,
            Rs2Option::EnableAutoWhiteBalance => 11,
            Rs2Option::VisualPreset => 12,
            Rs2Option::LaserPower => 13,
            Rs2Option::Accuracy => 14,
            Rs2Option::MotionRange => 15,
            Rs2Option::FilterOption => 16,
            Rs2Option::ConfidenceThreshold => 17,
            Rs2Option::EmitterEnabled => 18,
            Rs2Option::FramesQueueSize => 19,
            Rs2Option::TotalFrameDrops => 20,
            Rs2Option::AutoExposureMode => 21,
            Rs2Option::PowerLineFrequency => 22,
            Rs2Option::AsicTemperature => 23,
            Rs2Option::ErrorPollingEnabled => 24,
            Rs2Option::ProjectorTemperature => 25,
            Rs2Option::OutputTriggerEnabled => 26,
            Rs2Option::MotionModuleTemperature => 27,
            Rs2Option::DepthUnits => 28,
            Rs2Option::EnableMotionCorrection => 29,
            Rs2Option::AutoExposurePriority => 30,
            Rs2Option::ColorScheme => 31,
            Rs2Option::HistogramEqualizationEnabled => 32,
            Rs2Option::MinDistance => 33,
            Rs2Option::MaxDistance => 34,
            Rs2Option::TextureSource => 35,
            Rs2Option::FilterMagnitude => 36,
            Rs2Option::FilterSmoothAlpha => 37,
            Rs2Option::FilterSmoothDelta => 38,
            Rs2Option::HolesFill => 39,
            Rs2Option::Stereobaseline => 40,
            Rs2Option::AutoExposureConvergeStep => 41,
            Rs2Option::InterCamSyncMode => 42,
            Rs2Option::StreamFilter => 43,
            Rs2Option::StreamFormatFilter => 44,
            Rs2Option::StreamIndexFilter => 45,
            Rs2Option::EmitterOnOff => 46,
            Rs2Option::ZeroOrderPointX => 47,
            Rs2Option::ZeroOrderPointY => 48,
            Rs2Option::LldTemperature => 49,
            Rs2Option::McTemperature => 50,
            Rs2Option::MaTemperature => 51,
            Rs2Option::HardwarePreset => 52,
            Rs2Option::GlobalTimeEnabled => 53,
            Rs2Option::ApdTemperature => 54,
            Rs2Option::EnableMapping => 55,
            Rs2Option::EnableRelocalization => 56,
            Rs2Option::EnablePoseJumping => 57,
            Rs2Option::EnableDynamicCalibration => 58,
            Rs2Option::DepthOffset => 59,
            Rs2Option::LedPower => 60,
            Rs2Option::ZeroOrderEnabled => 61,
            Rs2Option::EnableMapPreservation => 62,
            Rs2Option::FreefallDetectionEnabled => 63,
            Rs2Option::AvalanchePhotoDiode => 64,
            Rs2Option::PostProcessingSharpening => 65,
            Rs2Option::PreProcessingSharpening => 66,
            Rs2Option::NoiseFiltering => 67,
            Rs2Option::InvalidationBypass => 68,
            Rs2Option::DigitalGain => 69,
            Rs2Option::SensorMode => 70,
            Rs2Option::EmitterAlwaysOn => 71,
            Rs2Option::ThermalCompensation => 72,
            Rs2Option::TriggerCameraAccuracyHealth => 73,
            Rs2Option::ResetCameraAccuracyHealth => 74,
            Rs2Option::HostPerformance => 75,
            Rs2Option::HdrEnabled => 76,
            Rs2Option::SequenceName => 77,
            Rs2Option::SequenceSize => 78,
            Rs2Option::SequenceId => 79,
            Rs2Option::HumidityTemperature => 80,
            Rs2Option::EnableMaxUsableRange => 81,
            Rs2Option::AlternateIr => 82,
            Rs2Option::NoiseEstimation => 83,
            Rs2Option::EnableIrReflectivity => 84,
            Rs2Option::AutoExposureLimit => 85,
            Rs2Option::AutoGainLimit => 86,
            Rs2Option::AutoRxSensitivity => 87,
            Rs2Option::TransmitterFrequency => 88,
            Rs2Option::VerticalBinning => 89,
            Rs2Option::ReceiverSensitivity => 90,
            Rs2Option::AutoExposureLimitToggle => 91,
            Rs2Option::AutoGainLimitToggle => 92,
            Rs2Option::EmitterFrequency => 93,
            Rs2Option::DepthAutoExposureMode => 94,
            Rs2Option::OhmTemperature => 95,
            Rs2Option::SocPvtTemperature => 96,
            Rs2Option::GyroSensitivity => 97,
            Rs2Option::RegionOfInterest => 98,
            Rs2Option::Rotation => 99,
            Rs2Option::SafetyPresetActiveIndex => 100,
            Rs2Option::SafetyMode => 101,
            Rs2Option::RgbTnrEnabled => 102,
            Rs2Option::SafetyMcuTemperature => 103,
            Rs2Option::LeftIrTemperature => 104,
            Rs2Option::EmbeddedFilterEnabled => 105,
            Rs2Option::DisparityShift => 106,
            Rs2Option::Threshold => 107,
            Rs2Option::DownscaleRatio => 108,
            Rs2Option::Count => 109,
        }
    }
}

impl Rs2ExceptionType {
    /// The name of this exception category, as `to_str` gives it.
    pub open spec fn spec_name(self) -> Option<Seq<char>> {
        match self {
            Rs2ExceptionType::Unknown => Some("unknown"@),
            Rs2ExceptionType::CameraDisconnected => Some("camera disconnected"@),
            Rs2ExceptionType::Backend => Some("backend"@),
            Rs2ExceptionType::InvalidValue => Some("invalid value"@),
            Rs2ExceptionType::WrongApiCallSequence => Some("wrong api call sequence"@),
            Rs2ExceptionType::NotImplemented => Some("not implemented"@),
            Rs2ExceptionType::DeviceInRecoveryMode => Some("device in recovery mode"@),
            Rs2ExceptionType::Io => Some("io"@),
            Rs2ExceptionType::Count => None,
        }
    }

    /// A human-readable name; `None` for the `Count` sentinel.
    pub fn to_str(self) -> (r: Option<&'static str>)
        ensures
            r is Some <==> self.spec_name() is Some,
            r matches Some(s) ==> Some(s@) == self.spec_name(),
    {
        match self {
            Rs2ExceptionType::Unknown => Some("unknown"),
            Rs2ExceptionType::CameraDisconnected => Some("camera disconnected"),
            Rs2ExceptionType::Backend => Some("backend"),
            Rs2ExceptionType::InvalidValue => Some("invalid value"),
            Rs2ExceptionType::WrongApiCallSequence => Some("wrong api call sequence"),
            Rs2ExceptionType::NotImplemented => Some("not implemented"),
            Rs2ExceptionType::DeviceInRecoveryMode => Some("device in recovery mode"),
            Rs2ExceptionType::Io => Some("io"),
            Rs2ExceptionType::Count => None,
        }
    }
}


/// Distinct exception types have distinct C values, each between 0 and the value of
/// the `Count` sentinel.
pub proof fn lemma_exception_type_codes(a: Rs2ExceptionType, b: Rs2ExceptionType)
    ensures
        0 <= a.code() <= Rs2ExceptionType::Count.code(),
        a.code() == b.code() ==> a == b,
{
}

/// Distinct information fields have distinct C values, each between 0 and the value of
/// the `Count` sentinel.
pub proof fn lemma_camera_info_codes(a: Rs2CameraInfo, b: Rs2CameraInfo)
    ensures
        0 <= a.code() <= Rs2CameraInfo::Count.code(),
        a.code() == b.code() ==> a == b,
{
}

/// Distinct stream types have distinct C values, each between 0 and the value of
/// the `Count` sentinel.
pub proof fn lemma_stream_kind_codes(a: Rs2StreamKind, b: Rs2StreamKind)
    ensures
        0 <= a.code() <= Rs2StreamKind::Count.code(),
        a.code() == b.code() ==> a == b,
{
}

/// Distinct formats have distinct C values, each between 0 and the value of
/// the `Count` sentinel.
pub proof fn lemma_format_codes(a: Rs2Format, b: Rs2Format)
    ensures
        0 <= a.code() <= Rs2Format::Count.code(),
        a.code() == b.code() ==> a == b,
{
}

/// Distinct distortion models have distinct C values, each between 0 and the value of
/// the `Count` sentinel.
pub proof fn lemma_distortion_codes(a: Rs2Distortion, b: Rs2Distortion)
    ensures
        0 <= a.code() <= Rs2Distortion::Count.code(),
        a.code() == b.code() ==> a == b,
{
}

/// Distinct extensions have distinct C values, each between 0 and the value of
/// the `Count` sentinel.
pub proof fn lemma_extension_codes(a: Rs2Extension, b: Rs2Extension)
    ensures
        0 <= a.code() <= Rs2Extension::Count.code(),
        a.code() == b.code() ==> a == b,
{
}

/// Distinct options have distinct C values, each between 0 and the value of
/// the `Count` sentinel.
pub proof fn lemma_option_codes(a: Rs2Option, b: Rs2Option)
    ensures
        0 <= a.code() <= Rs2Option::Count.code(),
        a.code() == b.code() ==> a == b,
{
}

/// The C value of each exception category is the constant the C headers give it.
pub proof fn lemma_exception_type_c_values()
    ensures
        Rs2ExceptionType::Unknown.code() == 0,
        Rs2ExceptionType::CameraDisconnected.code() == 1,
        Rs2ExceptionType::Backend.code() == 2,
        Rs2ExceptionType::InvalidValue.code() == 3,
        Rs2ExceptionType::WrongApiCallSequence.code() == 4,
        Rs2ExceptionType::NotImplemented.code() == 5,
        Rs2ExceptionType::DeviceInRecoveryMode.code() == 6,
        Rs2ExceptionType::Io.code() == 7,
        Rs2ExceptionType::Count.code() == 8,
{
}

/// The C value of each camera information field is the constant the C headers give it.
pub proof fn lemma_camera_info_c_values()
    ensures
        Rs2CameraInfo::Name.code() == 0,
        Rs2CameraInfo::SerialNumber.code() == 1,
        Rs2CameraInfo::FirmwareVersion.code() == 2,
        Rs2CameraInfo::RecommendedFirmwareVersion.code() == 3,
        Rs2CameraInfo::PhysicalPort.code() == 4,
        Rs2CameraInfo::DebugOpCode.code() == 5,
        Rs2CameraInfo::AdvancedMode.code() == 6,
        Rs2CameraInfo::ProductId.code() == 7,
        Rs2CameraInfo::CameraLocked.code() == 8,
        Rs2CameraInfo::UsbTypeDescriptor.code() == 9,
        Rs2CameraInfo::ProductLine.code() == 10,
        Rs2CameraInfo::AsicSerialNumber.code() == 11,
        Rs2CameraInfo::FirmwareUpdateId.code() == 12,
        Rs2CameraInfo::IpAddress.code() == 13,
        Rs2CameraInfo::DfuDevicePath.code() == 14,
        Rs2CameraInfo::ConnectionType.code() == 15,
        Rs2CameraInfo::SmcuFwVersion.code() == 16,
        Rs2CameraInfo::ImuType.code() == 17,
        Rs2CameraInfo::MipiDriverVersion.code() == 18,
        Rs2CameraInfo::Count.code() == 19,
{
}

/// The C value of each stream type is the constant the C headers give it.
pub proof fn lemma_stream_kind_c_values()
    ensures
        Rs2StreamKind::Any.code() == 0,
        Rs2StreamKind::Depth.code() == 1,
        Rs2StreamKind::Color.code() == 2,
        Rs2StreamKind::Infrared.code() == 3,
        Rs2StreamKind::Fisheye.code() == 4,
        Rs2StreamKind::Gyro.code() == 5,
        Rs2StreamKind::Accel.code() == 6,
        Rs2StreamKind::Gpio.code() == 7,
        Rs2StreamKind::Pose.code() == 8,
        Rs2StreamKind::Confidence.code() == 9,
        Rs2StreamKind::Motion.code() == 10,
        Rs2StreamKind::Safety.code() == 11,
        Rs2StreamKind::Occupancy.code() == 12,
        Rs2StreamKind::LabeledPointCloud.code() == 13,
        Rs2StreamKind::ObjectDetection.code() == 14,
        Rs2StreamKind::Count.code() == 15,
{
}

/// The C value of each format is the constant the C headers give it.
pub proof fn lemma_format_c_values()
    ensures
        Rs2Format::Any.code() == 0,
        Rs2Format::Z16.code() == 1,
        Rs2Format::Disparity16.code() == 2,
        Rs2Format::Xyz32f.code() == 3,
        Rs2Format::Yuyv.code() == 4,
        Rs2Format::Rgb8.code() == 5,
        Rs2Format::Bgr8.code() == 6,
        Rs2Format::Rgba8.code() == 7,
        Rs2Format::Bgra8.code() == 8,
        Rs2Format::Y8.code() == 9,
        Rs2Format::Y16.code() == 10,
        Rs2Format::Raw10.code() == 11,
        Rs2Format::Raw16.code() == 12,
        Rs2Format::Raw8.code() == 13,
        Rs2Format::Uyvy.code() == 14,
        Rs2Format::MotionRaw.code() == 15,
        Rs2Format::MotionXyz32f.code() == 16,
        Rs2Format::GpioRaw.code() == 17,
        Rs2Format::SixDof.code() == 18,
        Rs2Format::Disparity32.code() == 19,
        Rs2Format::Y10bpack.code() == 20,
        Rs2Format::Distance.code() == 21,
        Rs2Format::Mjpeg.code() == 22,
        Rs2Format::Y8i.code() == 23,
        Rs2Format::Y12i.code() == 24,
        Rs2Format::Inzi.code() == 25,
        Rs2Format::Invi.code() == 26,
        Rs2Format::W10.code() == 27,
        Rs2Format::Z16h.code() == 28,
        Rs2Format::Fg.code() == 29,
        Rs2Format::Y411.code() == 30,
        Rs2Format::Y16i.code() == 31,
        Rs2Format::M420.code() == 32,
        Rs2Format::CombinedMotion.code() == 33,
        Rs2Format::Nv12.code() == 34,
        Rs2Format::Count.code() == 35,
{
}

/// The C value of each distortion model is the constant the C headers give it.
pub proof fn lemma_distortion_c_values()
    ensures
        Rs2Distortion::NoDistortion.code() == 0,
        Rs2Distortion::ModifiedBrownConrady.code() == 1,
        Rs2Distortion::InverseBrownConrady.code() == 2,
        Rs2Distortion::Ftheta.code() == 3,
        Rs2Distortion::BrownConrady.code() == 4,
        Rs2Distortion::KannalaBrandt4.code() == 5,
        Rs2Distortion::Count.code() == 6,
{
}

/// The C value of each extension is the constant the C headers give it.
pub proof fn lemma_extension_c_values()
    ensures
        Rs2Extension::Unknown.code() == 0,
        Rs2Extension::Debug.code() == 1,
        Rs2Extension::Info.code() == 2,
        Rs2Extension::Motion.code() == 3,
        Rs2Extension::Options.code() == 4,
        Rs2Extension::Video.code() == 5,
        Rs2Extension::Roi.code() == 6,
        Rs2Extension::DepthSensor.code() == 7,
        Rs2Extension::VideoFrame.code() == 8,
        Rs2Extension::MotionFrame.code() == 9,
        Rs2Extension::CompositeFrame.code() == 10,
        Rs2Extension::Points.code() == 11,
        Rs2Extension::DepthFrame.code() == 12,
        Rs2Extension::AdvancedMode.code() == 13,
        Rs2Extension::Record.code() == 14,
        Rs2Extension::VideoProfile.code() == 15,
        Rs2Extension::Playback.code() == 16,
        Rs2Extension::DepthStereoSensor.code() == 17,
        Rs2Extension::DisparityFrame.code() == 18,
        Rs2Extension::MotionProfile.code() == 19,
        Rs2Extension::PoseFrame.code() == 20,
        Rs2Extension::PoseProfile.code() == 21,
        Rs2Extension::Tm2.code() == 22,
        Rs2Extension::SoftwareDevice.code() == 23,
        Rs2Extension::SoftwareSensor.code() == 24,
        Rs2Extension::DecimationFilter.code() == 25,
        Rs2Extension::ThresholdFilter.code() == 26,
        Rs2Extension::DisparityFilter.code() == 27,
        Rs2Extension::SpatialFilter.code() == 28,
        Rs2Extension::TemporalFilter.code() == 29,
        Rs2Extension::HoleFillingFilter.code() == 30,
        Rs2Extension::ZeroOrderFilter.code() == 31,
        Rs2Extension::RecommendedFilters.code() == 32,
        Rs2Extension::Pose.code() == 33,
        Rs2Extension::PoseSensor.code() == 34,
        Rs2Extension::WheelOdometer.code() == 35,
        Rs2Extension::GlobalTimer.code() == 36,
        Rs2Extension::Updatable.code() == 37,
        Rs2Extension::UpdateDevice.code() == 38,
        Rs2Extension::L500DepthSensor.code() == 39,
        Rs2Extension::Tm2Sensor.code() == 40,
        Rs2Extension::AutoCalibratedDevice.code() == 41,
        Rs2Extension::ColorSensor.code() == 42,
        Rs2Extension::MotionSensor.code() == 43,
        Rs2Extension::FisheyeSensor.code() == 44,
        Rs2Extension::DepthHuffmanDecoder.code() == 45,
        Rs2Extension::Serializable.code() == 46,
        Rs2Extension::FwLogger.code() == 47,
        Rs2Extension::AutoCalibrationFilter.code() == 48,
        Rs2Extension::DeviceCalibration.code() == 49,
        Rs2Extension::CalibratedSensor.code() == 50,
        Rs2Extension::HdrMerge.code() == 51,
        Rs2Extension::SequenceIdFilter.code() == 52,
        Rs2Extension::MaxUsableRangeSensor.code() == 53,
        Rs2Extension::DebugStreamSensor.code() == 54,
        Rs2Extension::CalibrationChangeDevice.code() == 55,
        Rs2Extension::RotationFilter.code() == 56,
        Rs2Extension::SafetySensor.code() == 57,
        Rs2Extension::DepthMappingSensor.code() == 58,
        Rs2Extension::LabeledPoints.code() == 59,
        Rs2Extension::EthConfig.code() == 60,
        Rs2Extension::SupportedEmbeddedFilters.code() == 61,
        Rs2Extension::DecimationEmbeddedFilter.code() == 62,
        Rs2Extension::TemporalEmbeddedFilter.code() == 63,
        Rs2Extension::CloseRangeEmbeddedFilter.code() == 64,
        Rs2Extension::InferenceFrame.code() == 65,
        Rs2Extension::ObjectDetectionFrame.code() == 66,
        Rs2Extension::InferenceSensor.code() == 67,
        Rs2Extension::ObjectDetectionSensor.code() == 68,
        Rs2Extension::InferenceProfile.code() == 69,
        Rs2Extension::Count.code() == 70,
{
}

/// The C value of each option is the constant the C headers give it.
pub proof fn lemma_option_c_values()
    ensures
        Rs2Option::BacklightCompensation.code() == 0,
        Rs2Option::Brightness.code() == 1,
        Rs2Option::Contrast.code() == 2,
        Rs2Option::Exposure.code() == 3,
        Rs2Option::Gain.code() == 4,
        Rs2Option::Gamma.code() == 5,
        Rs2Option::Hue.code() == 6,
        Rs2Option::Saturation.code() == 7,
        Rs2Option::Sharpness.code() == 8,
        Rs2Option::WhiteBalance.code() == 9,
        Rs2Option::EnableAutoExposure.code() == 10,
        Rs2Option::EnableAutoWhiteBalance.code() == 11,
        Rs2Option::VisualPreset.code() == 12,
        Rs2Option::LaserPower.code() == 13,
        Rs2Option::Accuracy.code() == 14,
        Rs2Option::MotionRange.code() == 15,
        Rs2Option::FilterOption.code() == 16,
        Rs2Option::ConfidenceThreshold.code() == 17,
        Rs2Option::EmitterEnabled.code() == 18,
        Rs2Option::FramesQueueSize.code() == 19,
        Rs2Option::TotalFrameDrops.code() == 20,
        Rs2Option::AutoExposureMode.code() == 21,
        Rs2Option::PowerLineFrequency.code() == 22,
        Rs2Option::AsicTemperature.code() == 23,
        Rs2Option::ErrorPollingEnabled.code() == 24,
        Rs2Option::ProjectorTemperature.code() == 25,
        Rs2Option::OutputTriggerEnabled.code() == 26,
        Rs2Option::MotionModuleTemperature.code() == 27,
        Rs2Option::DepthUnits.code() == 28,
        Rs2Option::EnableMotionCorrection.code() == 29,
        Rs2Option::AutoExposurePriority.code() == 30,
        Rs2Option::ColorScheme.code() == 31,
        Rs2Option::HistogramEqualizationEnabled.code() == 32,
        Rs2Option::MinDistance.code() == 33,
        Rs2Option::MaxDistance.code() == 34,
        Rs2Option::TextureSource.code() == 35,
        Rs2Option::FilterMagnitude.code() == 36,
        Rs2Option::FilterSmoothAlpha.code() == 37,
        Rs2Option::FilterSmoothDelta.code() == 38,
        Rs2Option::HolesFill.code() == 39,
        Rs2Option::Stereobaseline.code() == 40,
        Rs2Option::AutoExposureConvergeStep.code() == 41,
        Rs2Option::InterCamSyncMode.code() == 42,
        Rs2Option::StreamFilter.code() == 43,
        Rs2Option::StreamFormatFilter.code() == 44,
        Rs2Option::StreamIndexFilter.code() == 45,
        Rs2Option::EmitterOnOff.code() == 46,
        Rs2Option::ZeroOrderPointX.code() == 47,
        Rs2Option::ZeroOrderPointY.code() == 48,
        Rs2Option::LldTemperature.code() == 49,
        Rs2Option::McTemperature.code() == 50,
        Rs2Option::MaTemperature.code() == 51,
        Rs2Option::HardwarePreset.code() == 52,
        Rs2Option::GlobalTimeEnabled.code() == 53,
        Rs2Option::ApdTemperature.code() == 54,
        Rs2Option::EnableMapping.code() == 55,
        Rs2Option::EnableRelocalization.code() == 56,
        Rs2Option::EnablePoseJumping.code() == 57,
        Rs2Option::EnableDynamicCalibration.code() == 58,
        Rs2Option::DepthOffset.code() == 59,
        Rs2Option::LedPower.code() == 60,
        Rs2Option::ZeroOrderEnabled.code() == 61,
        Rs2Option::EnableMapPreservation.code() == 62,
        Rs2Option::FreefallDetectionEnabled.code() == 63,
        Rs2Option::AvalanchePhotoDiode.code() == 64,
        Rs2Option::PostProcessingSharpening.code() == 65,
        Rs2Option::PreProcessingSharpening.code() == 66,
        Rs2Option::NoiseFiltering.code() == 67,
        Rs2Option::InvalidationBypass.code() == 68,
        Rs2Option::DigitalGain.code() == 69,
        Rs2Option::SensorMode.code() == 70,
        Rs2Option::EmitterAlwaysOn.code() == 71,
        Rs2Option::ThermalCompensation.code() == 72,
        Rs2Option::TriggerCameraAccuracyHealth.code() == 73,
        Rs2Option::ResetCameraAccuracyHealth.code() == 74,
        Rs2Option::HostPerformance.code() == 75,
        Rs2Option::HdrEnabled.code() == 76,
        Rs2Option::SequenceName.code() == 77,
        Rs2Option::SequenceSize.code() == 78,
        Rs2Option::SequenceId.code() == 79,
        Rs2Option::HumidityTemperature.code() == 80,
        Rs2Option::EnableMaxUsableRange.code() == 81,
        Rs2Option::AlternateIr.code() == 82,
        Rs2Option::NoiseEstimation.code() == 83,
        Rs2Option::EnableIrReflectivity.code() == 84,
        Rs2Option::AutoExposureLimit.code() == 85,
        Rs2Option::AutoGainLimit.code() == 86,
        Rs2Option::AutoRxSensitivity.code() == 87,
        Rs2Option::TransmitterFrequency.code() == 88,
        Rs2Option::VerticalBinning.code() == 89,
        Rs2Option::ReceiverSensitivity.code() == 90,
        Rs2Option::AutoExposureLimitToggle.code() == 91,
        Rs2Option::AutoGainLimitToggle.code() == 92,
        Rs2Option::EmitterFrequency.code() == 93,
        Rs2Option::DepthAutoExposureMode.code() == 94,
        Rs2Option::OhmTemperature.code() == 95,
        Rs2Option::SocPvtTemperature.code() == 96,
        Rs2Option::GyroSensitivity.code() == 97,
        Rs2Option::RegionOfInterest.code() == 98,
        Rs2Option::Rotation.code() == 99,
        Rs2Option::SafetyPresetActiveIndex.code() == 100,
        Rs2Option::SafetyMode.code() == 101,
        Rs2Option::RgbTnrEnabled.code() == 102,
        Rs2Option::SafetyMcuTemperature.code() == 103,
        Rs2Option::LeftIrTemperature.code() == 104,
        Rs2Option::EmbeddedFilterEnabled.code() == 105,
        Rs2Option::DisparityShift.code() == 106,
        Rs2Option::Threshold.code() == 107,
        Rs2Option::DownscaleRatio.code() == 108,
        Rs2Option::Count.code() == 109,
{
}

} // verus!
