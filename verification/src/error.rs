//! Errors reported by librealsense2, and the fallbacks that the library
//! applies when a call that has a neutral answer fails.

use vstd::prelude::*;

use crate::kind::Rs2ExceptionType;

verus! {

/// Error returned by librealsense2 through the `rs2_error` out-parameter.
#[derive(Debug)]
pub struct Rs2Error {
    pub message: String,
    pub function: String,
    pub args: String,
}

/// `s` when the C library gave a string, else `default`.
pub open spec fn text_or(s: Option<Seq<char>>, default: Seq<char>) -> Seq<char> {
    match s {
        Some(t) => t,
        None => default,
    }
}

/// The text of an error as it is displayed: `realsense2[<function>]: <message>`.
pub open spec fn error_display(function: Seq<char>, message: Seq<char>) -> Seq<char> {
    "realsense2["@ + function + "]: "@ + message
}

/// The view of an optional string.
pub open spec fn opt_view(s: Option<String>) -> Option<Seq<char>> {
    match s {
        Some(t) => Some(t@),
        None => None,
    }
}

/// A string read from the C library, or `default` where the library gave none.
pub fn c_str_or(s: Option<String>, default: &str) -> (r: String)
    ensures
        r@ == text_or(opt_view(s), default@),
{
    match s {
        Some(t) => t,
        None => String::from_str(default),
    }
}

impl Rs2Error {
    /// An error made of the three given texts.
    pub fn new(message: &str, function: &str, args: &str) -> (r: Rs2Error)
        ensures
            r.message@ == message@,
            r.function@ == function@,
            r.args@ == args@,
    {
        Rs2Error {
            message: String::from_str(message),
            function: String::from_str(function),
            args: String::from_str(args),
        }
    }

    /// The error built from the three strings that the C error object
    /// carries (each `None` where the library gave a null pointer): a missing
    /// message reads `<no message>`, a missing function `<unknown function>`,
    /// missing arguments the empty string.
    pub fn from_c_parts(message: Option<String>, function: Option<String>, args: Option<String>) -> (r: Rs2Error)
        ensures
            r.message@ == text_or(opt_view(message), "<no message>"@),
            r.function@ == text_or(opt_view(function), "<unknown function>"@),
            r.args@ == text_or(opt_view(args), ""@),
    {
        let message = c_str_or(message, "<no message>");
        let function = c_str_or(function, "<unknown function>");
        let args = c_str_or(args, "");
        Rs2Error { message, function, args }
    }

    /// The displayed text of the error: `realsense2[<function>]: <message>`.
    pub fn to_string(&self) -> (r: String)
        ensures
            r@ == error_display(self.function@, self.message@),
    {
        let mut out = String::from_str("realsense2[");
        out.append(self.function.as_str());
        out.append("]: ");
        out.append(self.message.as_str());
        out
    }
}

/// Raw librealsense2 exception type, propagated for callers that want it.
#[derive(Debug, Clone, Copy, PartialEq, Eq, Structural)]
pub struct Rs2Exception {
    pub kind: Rs2ExceptionType,
}

impl Rs2Exception {
    /// The displayed text: the name of the kind, or
    /// `unknown exception type` for the `Count` sentinel.
    pub fn to_string(&self) -> (r: String)
        ensures
            r@ == text_or(self.kind.spec_name(), "unknown exception type"@),
    {
        match self.kind.to_str() {
            Some(s) => String::from_str(s),
            None => String::from_str("unknown exception type"),
        }
    }
}

/// The value a C getter returned, or 0 where it failed.
pub fn value_or_zero(r: Result<i32, Rs2Error>) -> (v: i32)
    ensures
        v == match r {
            Ok(x) => x,
            Err(_) => 0i32,
        },
{
    match r {
        Ok(x) => x,
        Err(_) => 0,
    }
}

/// A 64-bit counter a C getter returned, or 0 where it failed.
pub fn u64_or_zero(r: Result<u64, Rs2Error>) -> (v: u64)
    ensures
        v == match r {
            Ok(x) => x,
            Err(_) => 0u64,
        },
{
    match r {
        Ok(x) => x,
        Err(_) => 0,
    }
}

/// The count a C getter returned, with a failure or a negative count read
/// as 0.
pub fn count_or_zero(r: Result<i32, Rs2Error>) -> (n: usize)
    ensures
        n == match r {
            Ok(x) => if x < 0 { 0int } else { x as int },
            Err(_) => 0int,
        },
{
    match r {
        Ok(x) => if x < 0 { 0 } else { x as usize },
        Err(_) => 0,
    }
}

/// A C boolean (an `int`, true where nonzero) a getter returned, or `false`
/// where it failed.
pub fn flag_or_false(r: Result<i32, Rs2Error>) -> (b: bool)
    ensures
        b == match r {
            Ok(x) => x != 0,
            Err(_) => false,
        },
{
    match r {
        Ok(x) => x != 0,
        Err(_) => false,
    }
}

} // verus!
