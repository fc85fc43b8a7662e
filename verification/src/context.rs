//! The arguments with which a librealsense2 context is created, and the
//! reading of the reported API version.

use vstd::prelude::*;

use crate::error::{value_or_zero, Rs2Error};
use crate::text::contains_char;

verus! {

/// API version passed to `rs2_create_context`: 2.56.5.
pub const API_VERSION: i32 = 2 * 10000 + 56 * 100 + 5;

/// The texts of the error reported for settings holding a NUL character.
pub open spec fn is_settings_nul_error(e: Rs2Error) -> bool {
    &&& e.message@ == "settings string contains NUL byte"@
    &&& e.function@ == "Context::new_with_settings"@
    &&& e.args@ == ""@
}

/// Top-level entry point into the RealSense API: the API version and the
/// optional JSON settings a context is created with.
pub struct Context {
    api_version: i32,
    settings: Option<String>,
}

/// The abstract content of a context: its API version and its settings.
pub struct ContextView {
    pub api_version: i32,
    pub settings: Option<Seq<char>>,
}

impl View for Context {
    type V = ContextView;

    closed spec fn view(&self) -> ContextView {
        ContextView {
            api_version: self.api_version,
            settings: match self.settings {
                Some(s) => Some(s@),
                None => None,
            },
        }
    }
}

impl Context {
    /// A context for the library's API version, without settings.
    pub fn new() -> (c: Context)
        ensures
            c@.api_version == API_VERSION,
            c@.settings is None,
    {
        Context { api_version: API_VERSION, settings: None }
    }

    /// A context with advanced JSON settings. Settings holding a NUL
    /// character cannot be passed to C and are refused.
    pub fn new_with_settings(settings: &str) -> (r: Result<Context, Rs2Error>)
        ensures
            settings@.contains('\0') <==> r is Err,
            r matches Ok(c) ==> c@.api_version == API_VERSION && c@.settings == Some(settings@),
            r matches Err(e) ==> is_settings_nul_error(e),
    {
        if contains_char(settings, '\0') {
            return Err(
                Rs2Error::new("settings string contains NUL byte", "Context::new_with_settings", ""),
            );
        }
        Ok(Context { api_version: API_VERSION, settings: Some(String::from_str(settings)) })
    }

    /// The API version the context is created with.
    pub fn requested_api_version(&self) -> (v: i32)
        ensures
            v == self@.api_version,
    {
        self.api_version
    }

    /// The JSON settings the context is created with, if any.
    pub fn settings(&self) -> (s: Option<&str>)
        ensures
            match s {
                Some(t) => self@.settings == Some(t@),
                None => self@.settings is None,
            },
    {
        match &self.settings {
            Some(t) => Some(t.as_str()),
            None => None,
        }
    }
}

/// The SDK API version, given the outcome of the C query; 0 where it failed.
pub fn api_version(queried: Result<i32, Rs2Error>) -> (v: i32)
    ensures
        v == match queried {
            Ok(x) => x,
            Err(_) => 0i32,
        },
{
    value_or_zero(queried)
}

} // verus!
