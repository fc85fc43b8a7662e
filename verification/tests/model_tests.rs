use realsense2::config::{Config, ConfigRequest};
use realsense2::context::{api_version, Context, API_VERSION};
use realsense2::device::{Device, DeviceList};
use realsense2::error::{
    c_str_or, count_or_zero, flag_or_false, u64_or_zero, value_or_zero, Rs2Error, Rs2Exception,
};
use realsense2::frame::{readable_bytes, Frame, FrameSet};
use realsense2::kind::product_line;
use realsense2::kind::{
    Rs2CameraInfo, Rs2Distortion, Rs2ExceptionType, Rs2Extension, Rs2Format, Rs2Option,
    Rs2StreamKind,
};
use realsense2::pipeline::{ActiveProfile, Pipeline};
use realsense2::processing::{
    align_to_color, decimation, hole_filling, is_timeout_message, ply_path_argument, pointcloud,
    spatial, temporal, BlockKind, PointsStep, ProcessingBlock, QUEUE_CAPACITY,
};
use realsense2::stream_profile::{int_to_format, int_to_stream, StreamProfile, StreamProfileList};
use realsense2::text::{contains_char, contains_str};

fn err(msg: &str) -> Rs2Error {
    Rs2Error::new(msg, "rs2_test_call", "args")
}

fn depth_profile() -> StreamProfile {
    StreamProfile::from_c(Ok((1, 1, 0, 7, 30)), Ok((640, 480)))
}

fn color_profile() -> StreamProfile {
    StreamProfile::from_c(Ok((2, 5, 0, 8, 30)), Ok((1280, 720)))
}

fn frame(profile: StreamProfile, number: u64, extensions: Vec<Rs2Extension>) -> Frame {
    Frame::new(vec![1, 2, 3, 4], 4, 2, 1, 4, 16, number, profile, extensions)
}

fn device(serial: &str) -> Device {
    let mut supported = vec![false; 19];
    let mut values: Vec<Option<String>> = vec![None; 19];
    supported[0] = true;
    values[0] = Some("Intel RealSense D435".to_string());
    supported[1] = true;
    values[1] = Some(serial.to_string());
    // reported but not supported: must not be given out
    values[2] = Some("5.16.0.1".to_string());
    Device::from_c(supported, values)
}

#[test]
fn enum_codes_match_c_headers() {
    assert_eq!(Rs2StreamKind::Any.to_i32(), 0);
    assert_eq!(Rs2StreamKind::Color.to_i32(), 2);
    assert_eq!(Rs2StreamKind::Count.to_i32(), 15);
    assert_eq!(Rs2Format::Z16.to_i32(), 1);
    assert_eq!(Rs2Format::Nv12.to_i32(), 34);
    assert_eq!(Rs2CameraInfo::SerialNumber.to_i32(), 1);
    assert_eq!(Rs2CameraInfo::Count.to_i32(), 19);
    assert_eq!(Rs2Distortion::NoDistortion.to_i32(), 0);
    assert_eq!(Rs2Distortion::KannalaBrandt4.to_i32(), 5);
    assert_eq!(Rs2Extension::Points.to_i32(), 11);
    assert_eq!(Rs2Extension::DepthFrame.to_i32(), 12);
    assert_eq!(Rs2Extension::Count.to_i32(), 70);
    assert_eq!(Rs2Option::DepthUnits.to_i32(), 28);
    assert_eq!(Rs2Option::DownscaleRatio.to_i32(), 108);
    assert_eq!(Rs2ExceptionType::Io.to_i32(), 7);
}

#[test]
fn product_line_flags() {
    assert_eq!(product_line::ANY, 0xff);
    assert_eq!(product_line::D400, 0x02);
    assert_eq!(product_line::SW_ONLY, 0x100);
}

#[test]
fn exception_type_names() {
    assert_eq!(Rs2ExceptionType::Unknown.to_str(), Some("unknown"));
    assert_eq!(Rs2ExceptionType::CameraDisconnected.to_str(), Some("camera disconnected"));
    assert_eq!(Rs2ExceptionType::WrongApiCallSequence.to_str(), Some("wrong api call sequence"));
    assert_eq!(Rs2ExceptionType::Io.to_str(), Some("io"));
    assert_eq!(Rs2ExceptionType::Count.to_str(), None);
}

#[test]
fn exception_display() {
    let e = Rs2Exception { kind: Rs2ExceptionType::Backend };
    assert_eq!(e.to_string(), "backend");
    let e = Rs2Exception { kind: Rs2ExceptionType::Count };
    assert_eq!(e.to_string(), "unknown exception type");
}

#[test]
fn error_display_and_defaults() {
    let e = Rs2Error::new("no device connected", "rs2_pipeline_start", "pipe:0x1");
    assert_eq!(e.to_string(), "realsense2[rs2_pipeline_start]: no device connected");
    let e = Rs2Error::from_c_parts(None, None, None);
    assert_eq!(e.message, "<no message>");
    assert_eq!(e.function, "<unknown function>");
    assert_eq!(e.args, "");
    let e = Rs2Error::from_c_parts(Some("m".to_string()), Some("f".to_string()), Some("a".to_string()));
    assert_eq!((e.message.as_str(), e.function.as_str(), e.args.as_str()), ("m", "f", "a"));
    assert_eq!(c_str_or(None, "fallback"), "fallback");
    assert_eq!(c_str_or(Some("given".to_string()), "fallback"), "given");
}

#[test]
fn failed_queries_fall_back() {
    assert_eq!(value_or_zero(Ok(640)), 640);
    assert_eq!(value_or_zero(Err(err("x"))), 0);
    assert_eq!(count_or_zero(Ok(3)), 3);
    assert_eq!(count_or_zero(Ok(-2)), 0);
    assert_eq!(count_or_zero(Err(err("x"))), 0);
    assert!(flag_or_false(Ok(5)));
    assert!(!flag_or_false(Ok(0)));
    assert!(!flag_or_false(Err(err("x"))));
    assert_eq!(u64_or_zero(Ok(77)), 77);
    assert_eq!(u64_or_zero(Err(err("x"))), 0);
    assert_eq!(api_version(Ok(25605)), 25605);
    assert_eq!(api_version(Err(err("x"))), 0);
}

#[test]
fn text_search() {
    assert!(contains_char("ab\0c", '\0'));
    assert!(!contains_char("abc", '\0'));
    assert!(contains_str("Frame didn't arrive within 5000", "didn't arrive"));
    assert!(contains_str("abc", ""));
    assert!(!contains_str("ab", "abc"));
    assert!(!contains_str("did not arriv", "did not arrive"));
    assert!(contains_str("xxabab", "abab"));
}

#[test]
fn stream_and_format_codes() {
    assert_eq!(int_to_stream(1), Rs2StreamKind::Depth);
    assert_eq!(int_to_stream(4), Rs2StreamKind::Fisheye);
    assert_eq!(int_to_stream(8), Rs2StreamKind::Pose);
    assert_eq!(int_to_stream(7), Rs2StreamKind::Any);
    assert_eq!(int_to_stream(-3), Rs2StreamKind::Any);
    assert_eq!(int_to_format(1), Rs2Format::Z16);
    assert_eq!(int_to_format(4), Rs2Format::Yuyv);
    assert_eq!(int_to_format(14), Rs2Format::Uyvy);
    assert_eq!(int_to_format(2), Rs2Format::Any);
    for code in -2..40 {
        let k = int_to_stream(code);
        if k != Rs2StreamKind::Any {
            assert_eq!(k.to_i32(), code);
        }
        let f = int_to_format(code);
        if f != Rs2Format::Any {
            assert_eq!(f.to_i32(), code);
        }
    }
}

#[test]
fn profile_data() {
    let p = depth_profile();
    assert_eq!(p.data(), (Rs2StreamKind::Depth, Rs2Format::Z16, 0, 7, 30, (640, 480)));
    assert_eq!(p.stream_kind(), Rs2StreamKind::Depth);
    assert_eq!(p.format(), Rs2Format::Z16);
    assert_eq!(p.index(), 0);
    assert_eq!(p.unique_id(), 7);
    assert_eq!(p.framerate(), 30);
    assert!(p.is_video());
    // a motion stream has no resolution, whatever was reported
    let gyro = StreamProfile::from_c(Ok((5, 16, 0, 3, 200)), Ok((9, 9)));
    assert!(!gyro.is_video());
    assert_eq!(gyro.data(), (Rs2StreamKind::Gyro, Rs2Format::Any, 0, 3, 200, (0, 0)));
    let failed = StreamProfile::from_c(Err(err("x")), Err(err("y")));
    assert_eq!(failed, StreamProfile::unresolved());
    assert_eq!(failed.data(), (Rs2StreamKind::Any, Rs2Format::Any, 0, 0, 0, (0, 0)));
    let infrared = StreamProfile::from_c(Ok((3, 9, 1, 4, 15)), Err(err("y")));
    assert_eq!(infrared.data(), (Rs2StreamKind::Infrared, Rs2Format::Y8, 1, 4, 15, (0, 0)));
}

#[test]
fn profile_list_access() {
    let list = StreamProfileList::from_profiles(vec![depth_profile(), color_profile()]);
    assert_eq!(list.len(), 2);
    assert!(!list.is_empty());
    assert_eq!(list.get(1), color_profile());
    assert_eq!(list.get(2), StreamProfile::unresolved());
    assert_eq!(list.get(usize::MAX), StreamProfile::unresolved());
    if usize::BITS == 64 {
        // the index is passed to C as an int
        assert_eq!(list.get((1usize << 32) + 1), color_profile());
    }
    assert!(StreamProfileList::from_profiles(Vec::new()).is_empty());
}

#[test]
fn frame_values() {
    let f = frame(depth_profile(), 42, vec![Rs2Extension::VideoFrame, Rs2Extension::DepthFrame]);
    assert_eq!(f.data(), &[1, 2, 3, 4]);
    assert_eq!(f.data_size(), 4);
    assert_eq!((f.width(), f.height(), f.stride_in_bytes(), f.bits_per_pixel()), (2, 1, 4, 16));
    assert_eq!(f.frame_number(), 42);
    assert_eq!(f.stream_kind(), Rs2StreamKind::Depth);
    assert_eq!(f.format(), Rs2Format::Z16);
    assert_eq!(f.stream_profile(), depth_profile());
    assert!(f.is_extendable_to(Rs2Extension::DepthFrame));
    assert!(!f.is_extendable_to(Rs2Extension::Points));
    let g = f.clone();
    assert_eq!(g.frame_number(), 42);
    assert_eq!(g.data(), f.data());
}

#[test]
fn readable_frame_bytes() {
    assert_eq!(readable_bytes(Ok(true), 307200), 307200);
    assert_eq!(readable_bytes(Ok(false), 307200), 0);
    assert_eq!(readable_bytes(Err(err("x")), 307200), 0);
}

#[test]
fn frameset_selection() {
    let set = FrameSet::from_frames(vec![
        None,
        Some(frame(depth_profile(), 1, vec![])),
        Some(frame(color_profile(), 2, vec![])),
        Some(frame(depth_profile(), 3, vec![])),
    ]);
    assert_eq!(set.len(), 4);
    assert!(!set.is_empty());
    // the first embedded frame of the type, and only it
    let depth = set.frames_of_type(Rs2StreamKind::Depth);
    let numbers: Vec<u64> = depth.iter().map(|f| f.frame_number()).collect();
    assert_eq!(numbers, vec![1]);
    assert_eq!(set.first_index_of_type(Rs2StreamKind::Depth), Some(1));
    let color = set.frames_of_type(Rs2StreamKind::Color);
    assert_eq!(color.len(), 1);
    assert_eq!(color[0].frame_number(), 2);
    assert_eq!(set.first_index_of_type(Rs2StreamKind::Color), Some(2));
    assert!(set.frames_of_type(Rs2StreamKind::Infrared).is_empty());
    assert_eq!(set.first_index_of_type(Rs2StreamKind::Infrared), None);
    assert_eq!(set.extract(2).map(|f| f.frame_number()), Some(2));
    assert!(set.extract(0).is_none());
    assert!(set.extract(4).is_none());
    assert!(FrameSet::from_frames(Vec::new()).is_empty());
}

#[test]
fn frame_data_without_bytes() {
    let f = Frame::new(Vec::new(), 640, 2, 1, 4, 16, 1, depth_profile(), vec![]);
    assert!(f.data().is_empty());
    assert_eq!(f.data_size(), 640);
}

#[test]
fn device_information() {
    let d = device("123456");
    assert!(d.supports_info(Rs2CameraInfo::Name));
    assert_eq!(d.info(Rs2CameraInfo::SerialNumber), Some("123456".to_string()));
    assert!(!d.supports_info(Rs2CameraInfo::FirmwareVersion));
    assert_eq!(d.info(Rs2CameraInfo::FirmwareVersion), None);
    assert!(!d.supports_info(Rs2CameraInfo::Count));
    assert_eq!(d.info(Rs2CameraInfo::Count), None);
    let empty = Device::from_c(Vec::new(), Vec::new());
    assert_eq!(empty.info(Rs2CameraInfo::Name), None);
}

#[test]
fn device_list_iteration() {
    let list = DeviceList::from_devices(vec![Some(device("A1")), Some(device("B2"))]);
    assert_eq!(list.len(), 2);
    assert!(!list.is_empty());
    assert_eq!(list.get(1).and_then(|d| d.info(Rs2CameraInfo::SerialNumber)), Some("B2".to_string()));
    assert!(list.get(2).is_none());
    let mut it = list.iter();
    let mut serials = Vec::new();
    while let Some(d) = it.next() {
        serials.push(d.info(Rs2CameraInfo::SerialNumber).unwrap());
    }
    assert_eq!(serials, vec!["A1".to_string(), "B2".to_string()]);
    assert!(it.next().is_none());
    assert!(DeviceList::from_devices(Vec::new()).is_empty());
}

#[test]
fn device_iteration_stops_at_missing_device() {
    let list = DeviceList::from_devices(vec![Some(device("A1")), None, Some(device("C3"))]);
    assert_eq!(list.len(), 3);
    assert!(list.get(1).is_none());
    assert!(list.get(2).is_some());
    let mut it = list.iter();
    assert_eq!(it.next().and_then(|d| d.info(Rs2CameraInfo::SerialNumber)), Some("A1".to_string()));
    assert!(it.next().is_none());
    assert!(it.next().is_none());
    // a new iterator starts again at the first device
    let mut again = list.iter();
    assert_eq!(again.next().and_then(|d| d.info(Rs2CameraInfo::SerialNumber)), Some("A1".to_string()));
}

#[test]
fn pipeline_start_stop() {
    let mut p = Pipeline::new(Ok(())).ok().unwrap();
    assert!(!p.is_started());
    assert!(!p.needs_stop());
    // stopping a pipeline that is not streaming changes nothing
    assert!(p.stop(Err(err("ignored"))).is_ok());
    assert!(!p.is_started());
    assert!(p.start(Err(err("no device"))).is_err());
    assert!(!p.is_started());
    assert!(p.start_with_config(Ok(())).is_ok());
    assert!(p.is_started());
    assert!(p.needs_stop());
    let e = p.stop(Err(err("busy"))).unwrap_err();
    assert_eq!(e.message, "busy");
    assert!(p.is_started());
    assert!(p.stop(Ok(())).is_ok());
    assert!(!p.is_started());
    assert!(p.stop(Ok(())).is_ok());
    assert!(!p.is_started());
    let e = Pipeline::new(Err(err("no context"))).err().unwrap();
    assert_eq!(e.message, "no context");
}

#[test]
fn pipeline_frames() {
    let mut p = Pipeline::new(Ok(())).ok().unwrap();
    let set = FrameSet::from_frames(vec![Some(frame(depth_profile(), 9, vec![]))]);
    let got = p.wait_for_frames(Ok(Some(set))).ok().unwrap();
    assert_eq!(got.len(), 1);
    let e = p.wait_for_frames(Ok(None)).err().unwrap();
    assert_eq!(e.message, "no frame received before timeout");
    assert_eq!(e.function, "rs2_pipeline_wait_for_frames");
    assert_eq!(e.args, "");
    assert!(p.wait_for_frames(Err(err("x"))).is_err());

    let set = FrameSet::from_frames(vec![Some(frame(depth_profile(), 9, vec![]))]);
    assert!(p.poll_for_frames(Ok((0, Some(set)))).ok().unwrap().is_none());
    assert!(p.poll_for_frames(Ok((1, None))).ok().unwrap().is_none());
    let set = FrameSet::from_frames(vec![Some(frame(depth_profile(), 9, vec![]))]);
    assert_eq!(p.poll_for_frames(Ok((1, Some(set)))).ok().unwrap().unwrap().len(), 1);
    assert!(p.poll_for_frames(Err(err("x"))).is_err());
}

#[test]
fn pipeline_active_profile() {
    let p = Pipeline::new(Ok(())).ok().unwrap();
    let e = p.get_active_profile(Ok(None)).err().unwrap();
    assert_eq!(e.message, "pipeline is not active");
    assert_eq!(e.function, "rs2_pipeline_get_active_profile");
    let profile = ActiveProfile::from_parts(
        device("777"),
        StreamProfileList::from_profiles(vec![depth_profile(), color_profile()]),
    );
    let active = p.get_active_profile(Ok(Some(profile))).ok().unwrap();
    assert_eq!(active.device().info(Rs2CameraInfo::SerialNumber), Some("777".to_string()));
    let streams = active.streams();
    assert_eq!(streams.len(), 2);
    assert_eq!(streams.get(0), depth_profile());
}

#[test]
fn config_requests() {
    let r = ConfigRequest::enable_stream(Rs2StreamKind::Depth, None, 640, 480, Rs2Format::Z16, 30);
    assert_eq!(
        r,
        ConfigRequest::EnableStream { stream: 1, index: -1, width: 640, height: 480, format: 1, framerate: 30 }
    );
    let r = ConfigRequest::enable_stream(Rs2StreamKind::Infrared, Some(2), 0, 0, Rs2Format::Y8, 0);
    assert_eq!(
        r,
        ConfigRequest::EnableStream { stream: 3, index: 2, width: 0, height: 0, format: 9, framerate: 0 }
    );
    assert_eq!(ConfigRequest::disable_stream(Rs2StreamKind::Color), ConfigRequest::DisableStream { stream: 2 });
    assert_eq!(ConfigRequest::enable_all_streams(), ConfigRequest::EnableAllStreams);
    assert_eq!(ConfigRequest::disable_all_streams(), ConfigRequest::DisableAllStreams);
    assert_eq!(
        ConfigRequest::enable_device("829212070").ok().unwrap(),
        ConfigRequest::EnableDevice { serial: "829212070".to_string() }
    );
    let e = ConfigRequest::enable_device("82\09212").err().unwrap();
    assert_eq!(e.message, "serial contains NUL byte");
    assert_eq!(e.function, "Config::enable_device");
    assert_eq!(e.args, "");

    let mut c = Config::new(Ok(())).ok().unwrap();
    assert!(c.requests().is_empty());
    assert!(c.apply(ConfigRequest::enable_all_streams(), Ok(())).is_ok());
    assert!(c.apply(ConfigRequest::disable_all_streams(), Err(err("rejected"))).is_err());
    assert!(c.apply(ConfigRequest::disable_stream(Rs2StreamKind::Depth), Ok(())).is_ok());
    assert_eq!(
        c.requests(),
        &[ConfigRequest::EnableAllStreams, ConfigRequest::DisableStream { stream: 1 }]
    );
    assert!(Config::new(Err(err("x"))).is_err());
}

#[test]
fn context_arguments() {
    assert_eq!(API_VERSION, 25605);
    let c = Context::new();
    assert_eq!(c.requested_api_version(), 25605);
    assert_eq!(c.settings(), None);
    let c = Context::new_with_settings("{\"dds\": false}").ok().unwrap();
    assert_eq!(c.settings(), Some("{\"dds\": false}"));
    assert_eq!(c.requested_api_version(), API_VERSION);
    let e = Context::new_with_settings("a\0b").err().unwrap();
    assert_eq!(e.message, "settings string contains NUL byte");
    assert_eq!(e.function, "Context::new_with_settings");
}

#[test]
fn block_constructors() {
    assert_eq!(QUEUE_CAPACITY, 4);
    assert_eq!(decimation(), ProcessingBlock { kind: BlockKind::Decimation, queue_capacity: 4 });
    assert_eq!(spatial().kind, BlockKind::Spatial);
    assert_eq!(temporal().kind, BlockKind::Temporal);
    assert_eq!(hole_filling().kind, BlockKind::HoleFilling);
    assert_eq!(pointcloud().kind, BlockKind::PointCloud);
    assert_eq!(align_to_color().kind, BlockKind::AlignTo(Rs2StreamKind::Color));
    assert_eq!(align_to_color().queue_capacity, 4);
}

#[test]
fn block_output_timeouts() {
    assert!(is_timeout_message("Frame didn't arrive within 5000"));
    assert!(is_timeout_message("frame did not arrive in time"));
    assert!(!is_timeout_message("device disconnected"));
    let block = decimation();
    assert!(block.output(Err(err("Frame didn't arrive within 100"))).ok().unwrap().is_none());
    let e = block.output(Err(err("device disconnected"))).err().unwrap();
    assert_eq!(e.message, "device disconnected");
    assert!(block.output(Ok(None)).ok().unwrap().is_none());
    let out = block.output(Ok(Some(frame(depth_profile(), 5, vec![])))).ok().unwrap();
    assert_eq!(out.unwrap().frame_number(), 5);
}

#[test]
fn points_wait_steps() {
    assert_eq!(ProcessingBlock::points_wait_timeout(0), None);
    assert_eq!(ProcessingBlock::points_wait_timeout(5000), Some(5000));
    assert_eq!(ProcessingBlock::points_wait_timeout((1u128 << 32) + 7), Some(7));
    let block = pointcloud();
    match block.output_points(Ok(Some(frame(color_profile(), 1, vec![Rs2Extension::VideoFrame])))) {
        Ok(PointsStep::KeepWaiting) => {}
        _ => panic!("a color frame must be skipped"),
    }
    match block.output_points(Ok(Some(frame(depth_profile(), 2, vec![Rs2Extension::Points])))) {
        Ok(PointsStep::Done(Some(f))) => assert_eq!(f.frame_number(), 2),
        _ => panic!("a points frame must end the wait"),
    }
    match block.output_points(Ok(None)) {
        Ok(PointsStep::Done(None)) => {}
        _ => panic!("no frame ends the wait"),
    }
    assert!(block.output_points(Err(err("x"))).is_err());
}

#[test]
fn ply_path_check() {
    assert!(ply_path_argument("/tmp/cloud.ply").is_ok());
    let e = ply_path_argument("/tmp/\0.ply").err().unwrap();
    assert_eq!(e.message, "path contains NUL byte");
    assert_eq!(e.function, "export_ply");
}
