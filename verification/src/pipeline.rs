//! The streaming state of a pipeline and what each of its operations makes
//! of the answer of librealsense2.
//!
//! Each operation takes the outcome of the C call that it stands for; the
//! caller performs that call (where `needs_stop` says so, for `stop`) and
//! hands the outcome over.

use vstd::prelude::*;

use crate::device::{Device, DeviceView};
use crate::error::Rs2Error;
use crate::frame::FrameSet;
use crate::stream_profile::{StreamProfile, StreamProfileList};

verus! {

/// The texts of the error reported when no frameset arrived in time.
pub open spec fn is_wait_timeout_error(e: Rs2Error) -> bool {
    &&& e.message@ == "no frame received before timeout"@
    &&& e.function@ == "rs2_pipeline_wait_for_frames"@
    &&& e.args@ == ""@
}

/// The texts of the error reported when the pipeline has no active profile.
pub open spec fn is_inactive_error(e: Rs2Error) -> bool {
    &&& e.message@ == "pipeline is not active"@
    &&& e.function@ == "rs2_pipeline_get_active_profile"@
    &&& e.args@ == ""@
}

/// Whether a pipeline streams after a start call, given whether it streamed
/// before and whether the call succeeded.
pub open spec fn streaming_after_start(streaming: bool, succeeded: bool) -> bool {
    streaming || succeeded
}

/// Whether a pipeline streams after `stop`, given whether it streamed before
/// and whether the C stop call (made only on a streaming pipeline)
/// succeeded.
pub open spec fn streaming_after_stop(streaming: bool, succeeded: bool) -> bool {
    streaming && !succeeded
}

/// A successful start leaves the pipeline streaming and a failed start leaves
/// its state as it was; a successful stop leaves it not streaming and a
/// failed stop leaves its state as it was. A successful start followed by a
/// successful stop leaves the pipeline not streaming, whatever its state
/// before; and once a pipeline is not
/// streaming, `stop` leaves it so whatever the outcome handed to it.
pub proof fn lemma_start_stop(streaming: bool, outcome: bool)
    ensures
        streaming_after_start(streaming, true),
        streaming_after_start(streaming, false) == streaming,
        !streaming_after_stop(streaming, true),
        streaming_after_stop(streaming, false) == streaming,
        !streaming_after_stop(streaming_after_start(streaming, true), true),
        !streaming_after_stop(streaming_after_stop(streaming, true), outcome),
{
}

/// Controls device streaming: whether the pipeline is started.
pub struct Pipeline {
    started: bool,
}

impl View for Pipeline {
    /// Whether the pipeline is streaming.
    type V = bool;

    closed spec fn view(&self) -> bool {
        self.started
    }
}

impl Pipeline {
    /// The pipeline after its creation, given the outcome of the C creation
    /// call: stopped where it succeeded, the error where it failed.
    pub fn new(created: Result<(), Rs2Error>) -> (r: Result<Pipeline, Rs2Error>)
        ensures
            created is Ok <==> r is Ok,
            r matches Ok(p) ==> !p@,
            created matches Err(e) ==> r matches Err(e2) && e2 == e,
    {
        match created {
            Ok(()) => Ok(Pipeline { started: false }),
            Err(e) => Err(e),
        }
    }

    /// Whether the pipeline is streaming.
    pub fn is_started(&self) -> (b: bool)
        ensures
            b == self@,
    {
        self.started
    }

    /// Start streaming with the default configuration; `started` is the
    /// outcome of the C start call.
    pub fn start(&mut self, started: Result<(), Rs2Error>) -> (r: Result<(), Rs2Error>)
        ensures
            started is Ok <==> r is Ok,
            started matches Err(e) ==> r matches Err(e2) && e2 == e,
            final(self)@ == streaming_after_start(old(self)@, started is Ok),
            started is Ok ==> final(self)@,
            started is Err ==> final(self)@ == old(self)@,
    {
        self.start_with_config(started)
    }

    /// Start streaming according to a configuration; `started` is the
    /// outcome of the C start call. The pipeline is streaming after a
    /// successful start, and unchanged after a failed one.
    pub fn start_with_config(&mut self, started: Result<(), Rs2Error>) -> (r: Result<(), Rs2Error>)
        ensures
            started is Ok <==> r is Ok,
            started matches Err(e) ==> r matches Err(e2) && e2 == e,
            final(self)@ == streaming_after_start(old(self)@, started is Ok),
            started is Ok ==> final(self)@,
            started is Err ==> final(self)@ == old(self)@,
    {
        match started {
            Ok(()) => {
                self.started = true;
                Ok(())
            },
            Err(e) => Err(e),
        }
    }

    /// Whether stopping requires the C stop call: only a started pipeline
    /// is stopped.
    pub fn needs_stop(&self) -> (b: bool)
        ensures
            b == self@,
    {
        self.started
    }

    /// Stop streaming. `stopped` is the outcome of the C stop call, which is
    /// made only where `needs_stop` holds; on a pipeline that is not
    /// streaming it is ignored and the stop succeeds with nothing changed.
    pub fn stop(&mut self, stopped: Result<(), Rs2Error>) -> (r: Result<(), Rs2Error>)
        ensures
            r is Ok <==> (!old(self)@ || stopped is Ok),
            old(self)@ ==> (stopped matches Err(e) ==> r matches Err(e2) && e2 == e),
            final(self)@ == streaming_after_stop(old(self)@, stopped is Ok),
            !old(self)@ ==> final(self)@ == old(self)@,
            old(self)@ && stopped is Ok ==> !final(self)@,
            stopped is Err ==> final(self)@ == old(self)@,
    {
        if self.started {
            match stopped {
                Ok(()) => {
                    self.started = false;
                    Ok(())
                },
                Err(e) => Err(e),
            }
        } else {
            Ok(())
        }
    }

    /// The frameset a blocking wait gave: `waited` is the outcome of the C
    /// wait call (`None` for a null frame). A null frame is reported as a
    /// timeout error.
    pub fn wait_for_frames(&mut self, waited: Result<Option<FrameSet>, Rs2Error>) -> (r: Result<FrameSet, Rs2Error>)
        ensures
            final(self)@ == old(self)@,
            match waited {
                Ok(Some(fs)) => r matches Ok(out) && out@ == fs@,
                Ok(None) => r matches Err(e) && is_wait_timeout_error(e),
                Err(e) => r matches Err(e2) && e2 == e,
            },
    {
        match waited {
            Ok(Some(fs)) => Ok(fs),
            Ok(None) => Err(Rs2Error::new("no frame received before timeout", "rs2_pipeline_wait_for_frames", "")),
            Err(e) => Err(e),
        }
    }

    /// The frameset a non-blocking poll gave: `polled` is the outcome of the
    /// C poll call, its availability flag and its frame (`None` for null).
    /// Nothing is available where the flag is 0 or the frame is null.
    pub fn poll_for_frames(&mut self, polled: Result<(i32, Option<FrameSet>), Rs2Error>) -> (r: Result<Option<FrameSet>, Rs2Error>)
        ensures
            final(self)@ == old(self)@,
            match polled {
                Ok((available, frame)) => match frame {
                    Some(fs) => if available == 0 {
                        r matches Ok(None)
                    } else {
                        r matches Ok(Some(out)) && out@ == fs@
                    },
                    None => r matches Ok(None),
                },
                Err(e) => r matches Err(e2) && e2 == e,
            },
    {
        match polled {
            Ok((available, frame)) => {
                if available == 0 {
                    return Ok(None);
                }
                match frame {
                    Some(fs) => Ok(Some(fs)),
                    None => Ok(None),
                }
            },
            Err(e) => Err(e),
        }
    }

    /// The active profile, given the outcome of the C query (`None` for a
    /// null profile). A null profile is reported as an inactive pipeline.
    pub fn get_active_profile(&self, queried: Result<Option<ActiveProfile>, Rs2Error>) -> (r: Result<ActiveProfile, Rs2Error>)
        ensures
            match queried {
                Ok(Some(p)) => r matches Ok(out) && out@ == p@,
                Ok(None) => r matches Err(e) && is_inactive_error(e),
                Err(e) => r matches Err(e2) && e2 == e,
            },
    {
        match queried {
            Ok(Some(p)) => Ok(p),
            Ok(None) => Err(Rs2Error::new("pipeline is not active", "rs2_pipeline_get_active_profile", "")),
            Err(e) => Err(e),
        }
    }
}

/// The resolved device and stream profiles of an active pipeline.
pub struct ActiveProfile {
    device: Device,
    streams: StreamProfileList,
}

impl View for ActiveProfile {
    type V = (DeviceView, Seq<StreamProfile>);

    closed spec fn view(&self) -> (DeviceView, Seq<StreamProfile>) {
        (self.device@, self.streams@)
    }
}

impl ActiveProfile {
    /// The profile made of the given device and streams.
    pub fn from_parts(device: Device, streams: StreamProfileList) -> (p: ActiveProfile)
        ensures
            p@ == (device@, streams@),
    {
        ActiveProfile { device, streams }
    }

    /// The device used by the pipeline.
    pub fn device(&self) -> (d: Device)
        ensures
            d@ == self@.0,
    {
        self.device.clone()
    }

    /// The stream profiles active in the pipeline.
    pub fn streams(&self) -> (l: StreamProfileList)
        ensures
            l@ == self@.1,
    {
        let n = self.streams.len();
        let mut profiles: Vec<StreamProfile> = Vec::new();
        let mut i: usize = 0;
        while i < n
            invariant
                n == self.streams@.len(),
                n <= i32::MAX,
                i <= n,
                profiles@ == self.streams@.subrange(0, i as int),
            decreases n - i,
        {
            let p = self.streams.get(i);
            assert((i as i32) as int == i);
            profiles.push(p);
            i = i + 1;
            assert(profiles@ =~= self.streams@.subrange(0, i as int));
        }
        assert(profiles@ =~= self.streams@);
        StreamProfileList::from_profiles(profiles)
    }
}

} // verus!
