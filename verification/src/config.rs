//! Stream configuration requests for a pipeline, encoded as the arguments
//! of the C `rs2_config` calls, and the record of the requests that the
//! library accepted.

use vstd::prelude::*;

use crate::error::Rs2Error;
use crate::kind::{Rs2Format, Rs2StreamKind};
use crate::text::contains_char;

verus! {

/// One request made of a configuration, with the arguments of its C call.
#[derive(Debug, Clone, PartialEq, Eq)]
pub enum ConfigRequest {
    /// `rs2_config_enable_stream(stream, index, width, height, format, framerate)`.
    EnableStream { stream: i32, index: i32, width: i32, height: i32, format: i32, framerate: i32 },
    /// `rs2_config_enable_all_stream`.
    EnableAllStreams,
    /// `rs2_config_enable_device(serial)`.
    EnableDevice { serial: String },
    /// `rs2_config_disable_all_streams`.
    DisableAllStreams,
    /// `rs2_config_disable_stream(stream)`.
    DisableStream { stream: i32 },
}

/// The abstract content of a request.
pub enum ConfigRequestView {
    EnableStream { stream: i32, index: i32, width: i32, height: i32, format: i32, framerate: i32 },
    EnableAllStreams,
    EnableDevice { serial: Seq<char> },
    DisableAllStreams,
    DisableStream { stream: i32 },
}

/// The texts of the error reported for a serial number holding a NUL
/// character.
pub open spec fn is_serial_nul_error(e: Rs2Error) -> bool {
    &&& e.message@ == "serial contains NUL byte"@
    &&& e.function@ == "Config::enable_device"@
    &&& e.args@ == ""@
}

impl View for ConfigRequest {
    type V = ConfigRequestView;

    open spec fn view(&self) -> ConfigRequestView {
        match self {
            ConfigRequest::EnableStream { stream, index, width, height, format, framerate } =>
                ConfigRequestView::EnableStream {
                stream: *stream,
                index: *index,
                width: *width,
                height: *height,
                format: *format,
                framerate: *framerate,
            },
            ConfigRequest::EnableAllStreams => ConfigRequestView::EnableAllStreams,
            ConfigRequest::EnableDevice { serial } => ConfigRequestView::EnableDevice {
                serial: serial@,
            },
            ConfigRequest::DisableAllStreams => ConfigRequestView::DisableAllStreams,
            ConfigRequest::DisableStream { stream } => ConfigRequestView::DisableStream {
                stream: *stream,
            },
        }
    }
}

impl ConfigRequest {
    /// Enable a stream with the given parameters. `0` stands for any width,
    /// height or frame rate, and an index of `None` for any index, which is
    /// passed as `-1`.
    pub fn enable_stream(
        stream: Rs2StreamKind,
        index: Option<i32>,
        width: i32,
        height: i32,
        format: Rs2Format,
        framerate: i32,
    ) -> (r: ConfigRequest)
        ensures
            r@ == (ConfigRequestView::EnableStream {
                stream: stream.code() as i32,
                index: match index {
                    Some(i) => i,
                    None => -1i32,
                },
                width,
                height,
                format: format.code() as i32,
                framerate,
            }),
    {
        let index = match index {
            Some(i) => i,
            None => -1,
        };
        ConfigRequest::EnableStream {
            stream: stream.to_i32(),
            index,
            width,
            height,
            format: format.to_i32(),
            framerate,
        }
    }

    /// Enable all raw streams of the selected device.
    pub fn enable_all_streams() -> (r: ConfigRequest)
        ensures
            r@ == ConfigRequestView::EnableAllStreams,
    {
        ConfigRequest::EnableAllStreams
    }

    /// Select a specific device by serial number. A serial number holding a
    /// NUL character cannot be passed to C and is refused.
    pub fn enable_device(serial: &str) -> (r: Result<ConfigRequest, Rs2Error>)
        ensures
            serial@.contains('\0') <==> r is Err,
            r matches Ok(q) ==> q@ == (ConfigRequestView::EnableDevice { serial: serial@ }),
            r matches Err(e) ==> is_serial_nul_error(e),
    {
        if contains_char(serial, '\0') {
            return Err(Rs2Error::new("serial contains NUL byte", "Config::enable_device", ""));
        }
        Ok(ConfigRequest::EnableDevice { serial: String::from_str(serial) })
    }

    /// Disable all streams previously enabled.
    pub fn disable_all_streams() -> (r: ConfigRequest)
        ensures
            r@ == ConfigRequestView::DisableAllStreams,
    {
        ConfigRequest::DisableAllStreams
    }

    /// Disable a single stream type.
    pub fn disable_stream(stream: Rs2StreamKind) -> (r: ConfigRequest)
        ensures
            r@ == (ConfigRequestView::DisableStream { stream: stream.code() as i32 }),
    {
        ConfigRequest::DisableStream { stream: stream.to_i32() }
    }
}

/// Builds stream configuration requests for a pipeline: the requests that
/// the C configuration accepted, in the order they were made.
pub struct Config {
    requests: Vec<ConfigRequest>,
}

impl View for Config {
    type V = Seq<ConfigRequestView>;

    closed spec fn view(&self) -> Seq<ConfigRequestView> {
        self.requests@.map_values(|q: ConfigRequest| q@)
    }
}

impl Config {
    /// A configuration with no request, given the outcome of the C creation
    /// call.
    pub fn new(created: Result<(), Rs2Error>) -> (r: Result<Config, Rs2Error>)
        ensures
            created is Ok <==> r is Ok,
            r matches Ok(c) ==> c@ == Seq::<ConfigRequestView>::empty(),
            created matches Err(e) ==> r matches Err(e2) && e2 == e,
    {
        match created {
            Ok(()) => {
                let c = Config { requests: Vec::new() };
                assert(c@ =~= Seq::<ConfigRequestView>::empty());
                Ok(c)
            },
            Err(e) => Err(e),
        }
    }

    /// Records `request`, given the outcome of its C call: it is kept where
    /// the call succeeded, and the error is returned where it failed.
    pub fn apply(&mut self, request: ConfigRequest, applied: Result<(), Rs2Error>) -> (r: Result<(), Rs2Error>)
        ensures
            applied is Ok <==> r is Ok,
            applied matches Err(e) ==> r matches Err(e2) && e2 == e,
            final(self)@ == if applied is Ok {
                old(self)@.push(request@)
            } else {
                old(self)@
            },
    {
        match applied {
            Ok(()) => {
                self.requests.push(request);
                assert(self@ =~= old(self)@.push(request@));
                Ok(())
            },
            Err(e) => Err(e),
        }
    }

    /// The requests recorded, in the order they were made.
    pub fn requests(&self) -> (r: &[ConfigRequest])
        ensures
            r@.map_values(|q: ConfigRequest| q@) == self@,
    {
        self.requests.as_slice()
    }
}

} // verus!
