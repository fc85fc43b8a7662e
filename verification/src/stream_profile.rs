//! Stream profiles: the stream type, format, index, unique id, frame rate
//! and resolution of a configured stream, as librealsense2 reports them.

use vstd::prelude::*;

use crate::error::Rs2Error;
use crate::kind::{Rs2Format, Rs2StreamKind};

verus! {

/// The stream type that a C stream code is read as. Codes other than the
/// ones listed read as `Any`.
pub open spec fn stream_of_code(v: int) -> Rs2StreamKind {
    if v == 1 {
        Rs2StreamKind::Depth
    } else if v == 2 {
        Rs2StreamKind::Color
    } else if v == 3 {
        Rs2StreamKind::Infrared
    } else if v == 4 {
        Rs2StreamKind::Fisheye
    } else if v == 5 {
        Rs2StreamKind::Gyro
    } else if v == 6 {
        Rs2StreamKind::Accel
    } else if v == 8 {
        Rs2StreamKind::Pose
    } else {
        Rs2StreamKind::Any
    }
}

/// The format that a C format code is read as. Codes other than the ones
/// listed read as `Any`.
pub open spec fn format_of_code(v: int) -> Rs2Format {
    if v == 1 {
        Rs2Format::Z16
    } else if v == 3 {
        Rs2Format::Xyz32f
    } else if v == 4 {
        Rs2Format::Yuyv
    } else if v == 5 {
        Rs2Format::Rgb8
    } else if v == 6 {
        Rs2Format::Bgr8
    } else if v == 7 {
        Rs2Format::Rgba8
    } else if v == 8 {
        Rs2Format::Bgra8
    } else if v == 9 {
        Rs2Format::Y8
    } else if v == 14 {
        Rs2Format::Uyvy
    } else {
        Rs2Format::Any
    }
}

/// Streams that carry images, and so have a resolution.
pub open spec fn is_video_kind(k: Rs2StreamKind) -> bool {
    k == Rs2StreamKind::Depth || k == Rs2StreamKind::Color || k == Rs2StreamKind::Infrared
        || k == Rs2StreamKind::Fisheye
}

/// Reads a C stream code as a stream type.
pub fn int_to_stream(v: i32) -> (k: Rs2StreamKind)
    ensures
        k == stream_of_code(v as int),
{
    match v {
        1 => Rs2StreamKind::Depth,
        2 => Rs2StreamKind::Color,
        3 => Rs2StreamKind::Infrared,
        4 => Rs2StreamKind::Fisheye,
        5 => Rs2StreamKind::Gyro,
        6 => Rs2StreamKind::Accel,
        8 => Rs2StreamKind::Pose,
        _ => Rs2StreamKind::Any,
    }
}

/// Reads a C format code as a format.
pub fn int_to_format(v: i32) -> (f: Rs2Format)
    ensures
        f == format_of_code(v as int),
{
    match v {
        1 => Rs2Format::Z16,
        3 => Rs2Format::Xyz32f,
        5 => Rs2Format::Rgb8,
        6 => Rs2Format::Bgr8,
        7 => Rs2Format::Rgba8,
        8 => Rs2Format::Bgra8,
        9 => Rs2Format::Y8,
        14 => Rs2Format::Uyvy,
        4 => Rs2Format::Yuyv,
        _ => Rs2Format::Any,
    }
}

/// Where the stream code reads as a stream type other than `Any`, that type
/// has that code; and each of the stream types that codes are read as is read
/// back from its own code.
pub proof fn lemma_stream_code_round_trip(v: int, k: Rs2StreamKind)
    ensures
        stream_of_code(v) != Rs2StreamKind::Any ==> stream_of_code(v).code() == v,
        stream_of_code(v) != Rs2StreamKind::Any ==> (v == 1 || v == 2 || v == 3 || v == 4 || v
            == 5 || v == 6 || v == 8),
        (k == Rs2StreamKind::Depth || k == Rs2StreamKind::Color || k == Rs2StreamKind::Infrared
            || k == Rs2StreamKind::Fisheye || k == Rs2StreamKind::Gyro || k
            == Rs2StreamKind::Accel || k == Rs2StreamKind::Pose) ==> stream_of_code(k.code())
            == k,
{
}

/// Where the format code reads as a format other than `Any`, that format has
/// that code; and each of the formats that codes are read as is read back
/// from its own code.
pub proof fn lemma_format_code_round_trip(v: int, f: Rs2Format)
    ensures
        format_of_code(v) != Rs2Format::Any ==> format_of_code(v).code() == v,
        format_of_code(v) != Rs2Format::Any ==> (v == 1 || v == 3 || v == 4 || v == 5 || v == 6
            || v == 7 || v == 8 || v == 9 || v == 14),
        (f == Rs2Format::Z16 || f == Rs2Format::Xyz32f || f == Rs2Format::Yuyv || f
            == Rs2Format::Rgb8 || f == Rs2Format::Bgr8 || f == Rs2Format::Rgba8 || f
            == Rs2Format::Bgra8 || f == Rs2Format::Y8 || f == Rs2Format::Uyvy)
            ==> format_of_code(f.code()) == f,
{
}

/// A profile is a video profile exactly when its C stream code is that of
/// depth (1), color (2), infrared (3) or fisheye (4); a video profile gives
/// the resolution it reported, any other profile `(0, 0)`.
pub proof fn lemma_video_profiles(p: StreamProfile)
    ensures
        p.spec_is_video() <==> (p.stream == 1 || p.stream == 2 || p.stream == 3 || p.stream == 4),
        p.spec_data().5 == if p.stream == 1 || p.stream == 2 || p.stream == 3 || p.stream == 4 {
            (p.width, p.height)
        } else {
            (0i32, 0i32)
        },
{
}

/// A description of a stream configuration (resolution, format, framerate),
/// holding the raw values that librealsense2 reported for it: the C stream
/// and format codes, index, unique id, frame rate, width and height.
#[derive(Debug, Clone, Copy, PartialEq, Eq, Structural)]
pub struct StreamProfile {
    pub stream: i32,
    pub format: i32,
    pub index: i32,
    pub unique_id: i32,
    pub framerate: i32,
    pub width: i32,
    pub height: i32,
}

/// The full description of a profile:
/// (stream type, format, index, unique id, frame rate, (width, height)).
pub type ProfileData = (Rs2StreamKind, Rs2Format, i32, i32, i32, (i32, i32));

impl StreamProfile {
    pub open spec fn spec_stream_kind(self) -> Rs2StreamKind {
        stream_of_code(self.stream as int)
    }

    pub open spec fn spec_format(self) -> Rs2Format {
        format_of_code(self.format as int)
    }

    pub open spec fn spec_is_video(self) -> bool {
        is_video_kind(self.spec_stream_kind())
    }

    /// The resolution of a video stream; `(0, 0)` for any other stream.
    pub open spec fn spec_resolution(self) -> (i32, i32) {
        if self.spec_is_video() {
            (self.width, self.height)
        } else {
            (0i32, 0i32)
        }
    }

    pub open spec fn spec_data(self) -> ProfileData {
        (
            self.spec_stream_kind(),
            self.spec_format(),
            self.index,
            self.unique_id,
            self.framerate,
            self.spec_resolution(),
        )
    }

    /// The profile of a handle on which every query failed: all values 0.
    pub open spec fn spec_unresolved() -> StreamProfile {
        StreamProfile {
            stream: 0,
            format: 0,
            index: 0,
            unique_id: 0,
            framerate: 0,
            width: 0,
            height: 0,
        }
    }

    /// The profile built from what the C queries returned:
    /// `data` holds (stream code, format code, index, unique id, frame rate)
    /// and `resolution` (width, height). A failed query leaves its values 0.
    pub fn from_c(
        data: Result<(i32, i32, i32, i32, i32), Rs2Error>,
        resolution: Result<(i32, i32), Rs2Error>,
    ) -> (p: StreamProfile)
        ensures
            (p.stream, p.format, p.index, p.unique_id, p.framerate) == match data {
                Ok(d) => d,
                Err(_) => (0i32, 0i32, 0i32, 0i32, 0i32),
            },
            (p.width, p.height) == match resolution {
                Ok(r) => r,
                Err(_) => (0i32, 0i32),
            },
    {
        let (stream, format, index, unique_id, framerate) = match data {
            Ok(d) => d,
            Err(_) => (0, 0, 0, 0, 0),
        };
        let (width, height) = match resolution {
            Ok(r) => r,
            Err(_) => (0, 0),
        };
        StreamProfile { stream, format, index, unique_id, framerate, width, height }
    }

    /// The profile of a handle on which every query failed.
    pub fn unresolved() -> (p: StreamProfile)
        ensures
            p == StreamProfile::spec_unresolved(),
    {
        StreamProfile {
            stream: 0,
            format: 0,
            index: 0,
            unique_id: 0,
            framerate: 0,
            width: 0,
            height: 0,
        }
    }

    pub fn stream_kind(&self) -> (k: Rs2StreamKind)
        ensures
            k == self.spec_data().0,
    {
        let (stream, _, _, _, _, _) = self.data();
        stream
    }

    pub fn format(&self) -> (f: Rs2Format)
        ensures
            f == self.spec_data().1,
    {
        let (_, format, _, _, _, _) = self.data();
        format
    }

    pub fn index(&self) -> (i: i32)
        ensures
            i == self.spec_data().2,
    {
        let (_, _, index, _, _, _) = self.data();
        index
    }

    pub fn unique_id(&self) -> (u: i32)
        ensures
            u == self.spec_data().3,
    {
        let (_, _, _, unique_id, _, _) = self.data();
        unique_id
    }

    pub fn framerate(&self) -> (f: i32)
        ensures
            f == self.spec_data().4,
    {
        let (_, _, _, _, framerate, _) = self.data();
        framerate
    }

    /// (stream_kind, format, index, unique_id, framerate, resolution); the
    /// resolution is that of a video stream, `(0, 0)` for any other stream.
    pub fn data(&self) -> (d: ProfileData)
        ensures
            d == self.spec_data(),
    {
        let stream = int_to_stream(self.stream);
        let resolution = if self.is_video() {
            (self.width, self.height)
        } else {
            (0, 0)
        };
        (stream, int_to_format(self.format), self.index, self.unique_id, self.framerate, resolution)
    }

    /// Whether the stream carries images: depth, color, infrared or fisheye.
    pub fn is_video(&self) -> (b: bool)
        ensures
            b == self.spec_is_video(),
            b == (self.stream == 1 || self.stream == 2 || self.stream == 3 || self.stream == 4),
    {
        let k = int_to_stream(self.stream);
        match k {
            Rs2StreamKind::Depth | Rs2StreamKind::Color | Rs2StreamKind::Infrared
            | Rs2StreamKind::Fisheye => true,
            _ => false,
        }
    }
}

/// A list of stream profiles returned by the pipeline or a sensor. It holds
/// at most `i32::MAX` profiles, the count being a C `int`.
pub struct StreamProfileList {
    profiles: Vec<StreamProfile>,
}

impl View for StreamProfileList {
    type V = Seq<StreamProfile>;

    closed spec fn view(&self) -> Seq<StreamProfile> {
        self.profiles@
    }
}

impl StreamProfileList {
    #[verifier::type_invariant]
    spec fn count_fits(self) -> bool {
        self.profiles.len() <= i32::MAX
    }

    /// The list holding the given profiles, in order.
    pub fn from_profiles(profiles: Vec<StreamProfile>) -> (l: StreamProfileList)
        requires
            profiles.len() <= i32::MAX,
        ensures
            l@ == profiles@,
    {
        StreamProfileList { profiles }
    }

    pub fn len(&self) -> (n: usize)
        ensures
            n == self@.len(),
            n <= i32::MAX,
    {
        proof {
            use_type_invariant(self);
        }
        self.profiles.len()
    }

    pub fn is_empty(&self) -> (b: bool)
        ensures
            b == (self@.len() == 0),
    {
        self.len() == 0
    }

    /// The profile at `index`, the index being passed to the C library as
    /// an `int`. Where that position holds no profile the result is the
    /// profile of a failed query.
    pub fn get(&self, index: usize) -> (p: StreamProfile)
        ensures
            p == if 0 <= (index as i32) < self@.len() {
                self@[(index as i32) as int]
            } else {
                StreamProfile::spec_unresolved()
            },
    {
        let ci = index as i32;
        if ci >= 0 && (ci as usize) < self.profiles.len() {
            self.profiles[ci as usize]
        } else {
            StreamProfile::unresolved()
        }
    }
}

} // verus!
