use crate::text::dec_rep;
use crate::text::u16_to_decimal;
use vstd::prelude::*;
use vstd::string::StringExecFns;

verus! {

/// Everything that can go wrong while turning one prompt into one image.
#[derive(Debug, Clone, PartialEq, Eq)]
pub enum ApiError {
    /// The required API credential is missing; fatal before any work starts.
    Config,
    /// The network transport failed (connection, DNS, TLS), with its report.
    Transport(String),
    /// The remote endpoint answered with a status other than 200.
    Remote(u16),
    /// The response body did not have the expected shape, or held no URL.
    Protocol,
    /// Creating, writing or flushing the output file failed, with its report.
    Filesystem(String),
}

/// The human-readable description of each error.
pub open spec fn describe_spec(e: ApiError) -> Seq<char> {
    match e {
        ApiError::Config => "missing API credential"@,
        ApiError::Transport(m) => "transport failure: "@ + m@,
        ApiError::Remote(code) => "unexpected http status "@ + dec_rep(code as int),
        ApiError::Protocol => "malformed generation response"@,
        ApiError::Filesystem(m) => "file write failure: "@ + m@,
    }
}

impl ApiError {
    /// A human-readable description, fit for a task's terminal progress line.
    pub fn describe(&self) -> (s: String)
        ensures
            s@ == describe_spec(*self),
    {
        match self {
            ApiError::Config => "missing API credential".to_owned(),
            ApiError::Transport(m) => {
                let mut s = "transport failure: ".to_owned();
                s.append(m.as_str());
                s
            },
            ApiError::Remote(code) => {
                let mut s = "unexpected http status ".to_owned();
                let digits = u16_to_decimal(*code);
                s.append(digits.as_str());
                s
            },
            ApiError::Protocol => "malformed generation response".to_owned(),
            ApiError::Filesystem(m) => {
                let mut s = "file write failure: ".to_owned();
                s.append(m.as_str());
                s
            },
        }
    }
}

} // verus!
