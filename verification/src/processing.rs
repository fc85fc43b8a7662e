//! Post-processing blocks: which librealsense2 block each constructor stands
//! for, and what the library makes of the frames that come out of a block's
//! queue.

use vstd::prelude::*;

use crate::error::Rs2Error;
use crate::frame::Frame;
use crate::kind::{Rs2Extension, Rs2StreamKind};
use crate::text::{contains_char, contains_seq, contains_str};

verus! {

/// Capacity of the frame queue that receives the output of a block.
pub const QUEUE_CAPACITY: i32 = 4;

/// The librealsense2 block a processing block is created from.
#[derive(Debug, Clone, Copy, PartialEq, Eq, Structural)]
pub enum BlockKind {
    /// `rs2_create_decimation_filter_block`.
    Decimation,
    /// `rs2_create_spatial_filter_block`.
    Spatial,
    /// `rs2_create_temporal_filter_block`.
    Temporal,
    /// `rs2_create_hole_filling_filter_block`.
    HoleFilling,
    /// `rs2_create_align`, aligning to the given stream.
    AlignTo(Rs2StreamKind),
    /// `rs2_create_pointcloud`.
    PointCloud,
}

/// A processing block that transforms input frames: the block it is created
/// from and the capacity of its output queue.
#[derive(Debug, Clone, Copy, PartialEq, Eq, Structural)]
pub struct ProcessingBlock {
    pub kind: BlockKind,
    pub queue_capacity: i32,
}

/// The block of the given kind, with the library's output queue.
pub open spec fn block_of(kind: BlockKind) -> ProcessingBlock {
    ProcessingBlock { kind, queue_capacity: QUEUE_CAPACITY }
}

/// Depth decimation filter: downsamples the depth image, magnifying remaining
/// pixels (option `FilterMagnitude`, 2-8, default 2).
pub fn decimation() -> (b: ProcessingBlock)
    ensures
        b == block_of(BlockKind::Decimation),
{
    ProcessingBlock { kind: BlockKind::Decimation, queue_capacity: QUEUE_CAPACITY }
}

/// Spatial filter: smooths depth while preserving edges (options
/// `FilterMagnitude`, `FilterSmoothAlpha`, `FilterSmoothDelta`).
pub fn spatial() -> (b: ProcessingBlock)
    ensures
        b == block_of(BlockKind::Spatial),
{
    ProcessingBlock { kind: BlockKind::Spatial, queue_capacity: QUEUE_CAPACITY }
}

/// Temporal filter: removes noise by blending across frames (options
/// `FilterSmoothAlpha`, `FilterSmoothDelta`, `HolesFill`).
pub fn temporal() -> (b: ProcessingBlock)
    ensures
        b == block_of(BlockKind::Temporal),
{
    ProcessingBlock { kind: BlockKind::Temporal, queue_capacity: QUEUE_CAPACITY }
}

/// Hole filling filter: fills invalid depth pixels from neighbors (option
/// `HolesFill`, 0-2).
pub fn hole_filling() -> (b: ProcessingBlock)
    ensures
        b == block_of(BlockKind::HoleFilling),
{
    ProcessingBlock { kind: BlockKind::HoleFilling, queue_capacity: QUEUE_CAPACITY }
}

/// Depth-to-color alignment block. Aligns the depth stream to the color
/// stream's viewpoint.
pub fn align_to_color() -> (b: ProcessingBlock)
    ensures
        b == block_of(BlockKind::AlignTo(Rs2StreamKind::Color)),
{
    ProcessingBlock { kind: BlockKind::AlignTo(Rs2StreamKind::Color), queue_capacity: QUEUE_CAPACITY }
}

/// Point-cloud generation block. Generates a `Points` frame from depth (and
/// optionally texture from a color frame).
pub fn pointcloud() -> (b: ProcessingBlock)
    ensures
        b == block_of(BlockKind::PointCloud),
{
    ProcessingBlock { kind: BlockKind::PointCloud, queue_capacity: QUEUE_CAPACITY }
}

/// An error message that reports a frame that did not arrive in time.
pub open spec fn is_arrival_timeout(message: Seq<char>) -> bool {
    contains_seq(message, "didn't arrive"@) || contains_seq(message, "did not arrive"@)
}

/// Whether an error message reports a frame that did not arrive in time.
pub fn is_timeout_message(message: &str) -> (b: bool)
    ensures
        b == is_arrival_timeout(message@),
{
    contains_str(message, "didn't arrive") || contains_str(message, "did not arrive")
}

/// What a wait for a Points frame does next.
pub enum PointsStep {
    /// The wait is over, with the Points frame if one came.
    Done(Option<Frame>),
    /// A frame of another kind came and was dropped: wait again.
    KeepWaiting,
}

/// The texts of the error reported for a path holding a NUL character.
pub open spec fn is_path_nul_error(e: Rs2Error) -> bool {
    &&& e.message@ == "path contains NUL byte"@
    &&& e.function@ == "export_ply"@
    &&& e.args@ == ""@
}

/// Checks the path a Points frame is exported to as a PLY file: a path
/// holding a NUL character cannot be passed to C and is refused.
pub fn ply_path_argument(path: &str) -> (r: Result<(), Rs2Error>)
    ensures
        path@.contains('\0') <==> r is Err,
        r matches Err(e) ==> is_path_nul_error(e),
{
    if contains_char(path, '\0') {
        return Err(Rs2Error::new("path contains NUL byte", "export_ply", ""));
    }
    Ok(())
}

impl ProcessingBlock {
    /// The next processed frame, given the outcome of the wait on the output
    /// queue (`None` for a null frame). An error that reports a frame not
    /// arriving in time is a timeout, which gives `None`; any other error is
    /// returned.
    pub fn output(&self, waited: Result<Option<Frame>, Rs2Error>) -> (r: Result<Option<Frame>, Rs2Error>)
        ensures
            match waited {
                Ok(Some(f)) => r matches Ok(Some(g)) && g@ == f@,
                Ok(None) => r matches Ok(None),
                Err(e) => if is_arrival_timeout(e.message@) {
                    r matches Ok(None)
                } else {
                    r matches Err(e2) && e2 == e
                },
            },
    {
        match waited {
            Ok(frame) => Ok(frame),
            Err(e) => {
                if is_timeout_message(e.message.as_str()) {
                    Ok(None)
                } else {
                    Err(e)
                }
            },
        }
    }

    /// The timeout of the next wait for a Points frame, given the
    /// milliseconds left before the deadline: `None` where none are left and
    /// the wait ends without a frame.
    pub fn points_wait_timeout(remaining_ms: u128) -> (t: Option<u32>)
        ensures
            remaining_ms == 0 ==> t is None,
            remaining_ms != 0 ==> t == Some(remaining_ms as u32),
    {
        if remaining_ms == 0 {
            None
        } else {
            Some(remaining_ms as u32)
        }
    }

    /// One step of waiting for a Points frame, given what `output` gave:
    /// a Points frame ends the wait with it, no frame ends it without one,
    /// a frame of another kind is dropped and the wait goes on, and an error
    /// is returned.
    pub fn output_points(&self, received: Result<Option<Frame>, Rs2Error>) -> (r: Result<PointsStep, Rs2Error>)
        ensures
            match received {
                Ok(Some(f)) => if f@.extensions.contains(Rs2Extension::Points) {
                    r matches Ok(PointsStep::Done(Some(g))) && g@ == f@
                } else {
                    r matches Ok(PointsStep::KeepWaiting)
                },
                Ok(None) => r matches Ok(PointsStep::Done(None)),
                Err(e) => r matches Err(e2) && e2 == e,
            },
    {
        match received {
            Ok(Some(frame)) => {
                if frame.is_extendable_to(Rs2Extension::Points) {
                    Ok(PointsStep::Done(Some(frame)))
                } else {
                    Ok(PointsStep::KeepWaiting)
                }
            },
            Ok(None) => Ok(PointsStep::Done(None)),
            Err(e) => Err(e),
        }
    }
}

} // verus!
