//! Frames and framesets: what librealsense2 reported of a captured frame,
//! and the selection of embedded frames by stream type.

use vstd::prelude::*;

use crate::error::Rs2Error;
use crate::kind::{Rs2Extension, Rs2Format, Rs2StreamKind};
use crate::stream_profile::StreamProfile;

verus! {

/// The abstract content of a frame.
pub struct FrameView {
    pub data: Seq<u8>,
    pub data_size: usize,
    pub width: i32,
    pub height: i32,
    pub stride_in_bytes: i32,
    pub bits_per_pixel: i32,
    pub frame_number: u64,
    pub profile: StreamProfile,
    pub extensions: Seq<Rs2Extension>,
}

impl FrameView {
    /// The stream type of the frame, from its profile.
    pub open spec fn stream_kind(self) -> Rs2StreamKind {
        self.profile.spec_stream_kind()
    }
}

/// The number of bytes of frame data that can be read: none where the data
/// query failed or gave a null pointer, else the reported data size.
pub open spec fn spec_readable_bytes(data_ptr: Result<bool, Rs2Error>, data_size: usize) -> usize {
    match data_ptr {
        Ok(non_null) => if non_null { data_size } else { 0usize },
        Err(_) => 0usize,
    }
}

/// How many bytes of frame data to read, given the outcome of the data
/// pointer query (`Ok(true)` for a non-null pointer) and the data size.
pub fn readable_bytes(data_ptr: Result<bool, Rs2Error>, data_size: usize) -> (n: usize)
    ensures
        n == spec_readable_bytes(data_ptr, data_size),
{
    match data_ptr {
        Ok(non_null) => if non_null { data_size } else { 0 },
        Err(_) => 0,
    }
}

/// A single frame: its data bytes and the values librealsense2 reported
/// for it (each 0 where its query failed), its stream profile, and the
/// extensions it can be extended to. Its bytes are either none (the data
/// could not be read) or exactly as many as its reported data size.
pub struct Frame {
    data: Vec<u8>,
    data_size: usize,
    width: i32,
    height: i32,
    stride_in_bytes: i32,
    bits_per_pixel: i32,
    frame_number: u64,
    profile: StreamProfile,
    extensions: Vec<Rs2Extension>,
}

impl View for Frame {
    type V = FrameView;

    closed spec fn view(&self) -> FrameView {
        FrameView {
            data: self.data@,
            data_size: self.data_size,
            width: self.width,
            height: self.height,
            stride_in_bytes: self.stride_in_bytes,
            bits_per_pixel: self.bits_per_pixel,
            frame_number: self.frame_number,
            profile: self.profile,
            extensions: self.extensions@,
        }
    }
}

impl Clone for Frame {
    fn clone(&self) -> (r: Self)
        ensures
            r@ == self@,
    {
        proof {
            use_type_invariant(self);
        }
        let data = self.data.clone();
        let extensions = self.extensions.clone();
        proof {
            assert(data@ =~= self.data@);
            assert(extensions@ =~= self.extensions@);
        }
        Frame {
            data,
            data_size: self.data_size,
            width: self.width,
            height: self.height,
            stride_in_bytes: self.stride_in_bytes,
            bits_per_pixel: self.bits_per_pixel,
            frame_number: self.frame_number,
            profile: self.profile,
            extensions,
        }
    }
}

impl Frame {
    #[verifier::type_invariant]
    spec fn data_matches_size(self) -> bool {
        self.data.len() == 0 || self.data.len() == self.data_size
    }

    /// A frame holding the given values.
    pub fn new(
        data: Vec<u8>,
        data_size: usize,
        width: i32,
        height: i32,
        stride_in_bytes: i32,
        bits_per_pixel: i32,
        frame_number: u64,
        profile: StreamProfile,
        extensions: Vec<Rs2Extension>,
    ) -> (f: Frame)
        requires
            data.len() == 0 || data.len() == data_size,
        ensures
            f@ == (FrameView {
                data: data@,
                data_size,
                width,
                height,
                stride_in_bytes,
                bits_per_pixel,
                frame_number,
                profile,
                extensions: extensions@,
            }),
    {
        Frame {
            data,
            data_size,
            width,
            height,
            stride_in_bytes,
            bits_per_pixel,
            frame_number,
            profile,
            extensions,
        }
    }

    /// Raw frame bytes: none where the data could not be read, else exactly
    /// `data_size` bytes.
    pub fn data(&self) -> (d: &[u8])
        ensures
            d@ == self@.data,
            d@.len() == 0 || d@.len() == self@.data_size,
    {
        proof {
            use_type_invariant(self);
        }
        self.data.as_slice()
    }

    pub fn data_size(&self) -> (n: usize)
        ensures
            n == self@.data_size,
    {
        self.data_size
    }

    pub fn width(&self) -> (w: i32)
        ensures
            w == self@.width,
    {
        self.width
    }

    pub fn height(&self) -> (h: i32)
        ensures
            h == self@.height,
    {
        self.height
    }

    pub fn stride_in_bytes(&self) -> (s: i32)
        ensures
            s == self@.stride_in_bytes,
    {
        self.stride_in_bytes
    }

    pub fn bits_per_pixel(&self) -> (b: i32)
        ensures
            b == self@.bits_per_pixel,
    {
        self.bits_per_pixel
    }

    pub fn frame_number(&self) -> (n: u64)
        ensures
            n == self@.frame_number,
    {
        self.frame_number
    }

    /// The stream profile associated with this frame.
    pub fn stream_profile(&self) -> (p: StreamProfile)
        ensures
            p == self@.profile,
    {
        self.profile
    }

    pub fn stream_kind(&self) -> (k: Rs2StreamKind)
        ensures
            k == self@.stream_kind(),
    {
        self.stream_profile().stream_kind()
    }

    pub fn format(&self) -> (f: Rs2Format)
        ensures
            f == self@.profile.spec_format(),
    {
        self.stream_profile().format()
    }

    /// Whether this frame can be extended to the given extension type.
    pub fn is_extendable_to(&self, ext: Rs2Extension) -> (b: bool)
        ensures
            b == self@.extensions.contains(ext),
    {
        let mut i: usize = 0;
        while i < self.extensions.len()
            invariant
                i <= self.extensions.len(),
                forall|j: int| 0 <= j < i ==> self.extensions@[j] != ext,
            decreases self.extensions.len() - i,
        {
            if self.extensions[i] == ext {
                assert(self@.extensions[i as int] == ext);
                return true;
            }
            i = i + 1;
        }
        false
    }
}

/// The view of a frame entry of a frameset.
pub open spec fn entry_view(e: Option<Frame>) -> Option<FrameView> {
    match e {
        Some(f) => Some(f@),
        None => None,
    }
}

/// The entry is a frame of stream type `stream`.
pub open spec fn has_kind(entry: Option<FrameView>, stream: Rs2StreamKind) -> bool {
    entry matches Some(f) && f.stream_kind() == stream
}

/// Position `i` holds the first frame of stream type `stream`.
pub open spec fn is_first_of_kind(frames: Seq<Option<FrameView>>, stream: Rs2StreamKind, i: int) -> bool {
    &&& 0 <= i < frames.len()
    &&& has_kind(frames[i], stream)
    &&& forall|j: int| 0 <= j < i ==> !has_kind(#[trigger] frames[j], stream)
}

/// No frame of the set has stream type `stream`.
pub open spec fn none_of_kind(frames: Seq<Option<FrameView>>, stream: Rs2StreamKind) -> bool {
    forall|i: int| 0 <= i < frames.len() ==> !has_kind(#[trigger] frames[i], stream)
}

/// There is at most one first frame of a stream type, so the selection of
/// frames by type is determined: two positions that both hold the first frame
/// of a type are the same.
pub proof fn lemma_first_of_kind_unique(
    frames: Seq<Option<FrameView>>,
    stream: Rs2StreamKind,
    i: int,
    j: int,
)
    requires
        is_first_of_kind(frames, stream, i),
        is_first_of_kind(frames, stream, j),
    ensures
        i == j,
{
    if i < j {
        assert(!has_kind(frames[i], stream));
    } else if j < i {
        assert(!has_kind(frames[j], stream));
    }
}

/// A composite frameset: a frame containing multiple embedded frames, one per
/// active stream. Each position holds the embedded frame, or `None` where
/// librealsense2 could not extract it. It holds at most `i32::MAX` positions,
/// the count being a C `int`.
pub struct FrameSet {
    frames: Vec<Option<Frame>>,
}

impl View for FrameSet {
    type V = Seq<Option<FrameView>>;

    closed spec fn view(&self) -> Seq<Option<FrameView>> {
        self.frames@.map_values(|e: Option<Frame>| entry_view(e))
    }
}

impl FrameSet {
    #[verifier::type_invariant]
    spec fn count_fits(self) -> bool {
        self.frames.len() <= i32::MAX
    }

    /// The frameset holding the given entries, in order.
    pub fn from_frames(frames: Vec<Option<Frame>>) -> (s: FrameSet)
        requires
            frames.len() <= i32::MAX,
        ensures
            s@ == frames@.map_values(|e: Option<Frame>| entry_view(e)),
    {
        FrameSet { frames }
    }

    /// Number of embedded frames (one per enabled stream).
    pub fn len(&self) -> (n: usize)
        ensures
            n == self@.len(),
            n <= i32::MAX,
    {
        proof {
            use_type_invariant(self);
        }
        self.frames.len()
    }

    pub fn is_empty(&self) -> (b: bool)
        ensures
            b == (self@.len() == 0),
    {
        self.len() == 0
    }

    /// The frame at `index`, the index being passed to the C library as an
    /// `int`; `None` where that position holds no frame.
    pub fn extract(&self, index: usize) -> (r: Option<Frame>)
        ensures
            r is Some <==> (0 <= (index as i32) < self@.len() && self@[(index as i32) as int] is Some),
            r matches Some(f) ==> Some(f@) == self@[(index as i32) as int],
    {
        let ci = index as i32;
        if ci >= 0 && (ci as usize) < self.frames.len() {
            match &self.frames[ci as usize] {
                Some(f) => Some(f.clone()),
                None => None,
            }
        } else {
            None
        }
    }

    /// The position of the first embedded frame of stream type `stream`;
    /// `None` where there is none.
    pub fn first_index_of_type(&self, stream: Rs2StreamKind) -> (r: Option<usize>)
        ensures
            r matches Some(i) ==> is_first_of_kind(self@, stream, i as int),
            r is None <==> none_of_kind(self@, stream),
    {
        let n = self.len();
        let mut i: usize = 0;
        while i < n
            invariant
                n == self@.len(),
                i <= n,
                forall|j: int| 0 <= j < i ==> !has_kind(#[trigger] self@[j], stream),
            decreases n - i,
        {
            match &self.frames[i] {
                Some(f) => {
                    if f.stream_kind() == stream {
                        assert(has_kind(self@[i as int], stream));
                        return Some(i);
                    }
                    assert(!has_kind(self@[i as int], stream));
                },
                None => {
                    assert(!has_kind(self@[i as int], stream));
                },
            }
            i = i + 1;
        }
        None
    }

    /// The first embedded frame of stream type `stream`, as the one element
    /// of the result; an empty result where no embedded frame has that type.
    pub fn frames_of_type(&self, stream: Rs2StreamKind) -> (out: Vec<Frame>)
        ensures
            out@.len() <= 1,
            out@.len() == 0 <==> none_of_kind(self@, stream),
            out@.len() == 1 ==> exists|i: int|
                is_first_of_kind(self@, stream, i) && Some(out@[0]@) == self@[i],
    {
        let mut out: Vec<Frame> = Vec::new();
        match self.first_index_of_type(stream) {
            Some(i) => {
                proof {
                    use_type_invariant(self);
                }
                assert((i as i32) as int == i);
                match self.extract(i) {
                    Some(frame) => {
                        out.push(frame);
                        assert(is_first_of_kind(self@, stream, i as int) && Some(out@[0]@) == self@[i as int]);
                    },
                    None => {},
                }
            },
            None => {},
        }
        out
    }
}

} // verus!
