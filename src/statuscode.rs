use vstd::prelude::*;

verus! {

/// Outcome of one fetch: the HTTP statuses this client understands, the
/// three codes produced locally by the fetch pipeline, and `Undefined` for
/// any numeric code without a variant of its own.
#[derive(Debug, Clone, Copy, PartialEq, Eq, Structural)]
pub enum StatusCode {
    Undefined,
    FetchFailed,
    FetchTimeout,
    DecodeFailed,
    Okay,
    Created,
    NoContent,
    NotModified,
    BadRequest,
    Unauthorized,
    Forbidden,
    NotFound,
    MethodNotAllowed,
    Conflict,
    PayloadTooBig,
    UnsupportedMediaType,
    RateLimited,
    InternalServerError,
    NotImplemented,
}

/// The code a numeric HTTP status stands for.
pub open spec fn status_of_code(code: u16) -> StatusCode {
    if code == 200 {
        StatusCode::Okay
    } else if code == 201 {
        StatusCode::Created
    } else if code == 204 {
        StatusCode::NoContent
    } else if code == 304 {
        StatusCode::NotModified
    } else if code == 400 {
        StatusCode::BadRequest
    } else if code == 401 {
        StatusCode::Unauthorized
    } else if code == 403 {
        StatusCode::Forbidden
    } else if code == 404 {
        StatusCode::NotFound
    } else if code == 405 {
        StatusCode::MethodNotAllowed
    } else if code == 409 {
        StatusCode::Conflict
    } else if code == 413 {
        StatusCode::PayloadTooBig
    } else if code == 415 {
        StatusCode::UnsupportedMediaType
    } else if code == 429 {
        StatusCode::RateLimited
    } else if code == 500 {
        StatusCode::InternalServerError
    } else if code == 501 {
        StatusCode::NotImplemented
    } else if code == 901 {
        StatusCode::FetchFailed
    } else if code == 902 {
        StatusCode::FetchTimeout
    } else if code == 903 {
        StatusCode::DecodeFailed
    } else {
        StatusCode::Undefined
    }
}

impl StatusCode {
    pub open spec fn spec_is_success(self) -> bool {
        matches!(
            self,
            StatusCode::Okay | StatusCode::Created | StatusCode::NoContent | StatusCode::NotModified
        )
    }

    pub open spec fn spec_is_local(self) -> bool {
        matches!(self, StatusCode::FetchFailed | StatusCode::FetchTimeout)
    }

    /// Ok, Created, NoContent and NotModified are successes.
    pub fn is_success(&self) -> (r: bool)
        ensures
            r == self.spec_is_success(),
    {
        matches!(
            self,
            StatusCode::Okay | StatusCode::Created | StatusCode::NoContent | StatusCode::NotModified
        )
    }

    /// Every code that is not a success.
    pub fn is_failure(&self) -> (r: bool)
        ensures
            r == !self.spec_is_success(),
    {
        !self.is_success()
    }

    /// The codes that report a transport that could not complete.
    pub fn is_local(&self) -> (r: bool)
        ensures
            r == self.spec_is_local(),
    {
        matches!(self, StatusCode::FetchFailed | StatusCode::FetchTimeout)
    }

    /// Maps a numeric status to its code; numbers without a variant give `Undefined`.
    pub fn from_code(code: u16) -> (r: StatusCode)
        ensures
            r == status_of_code(code),
    {
        match code {
            200 => StatusCode::Okay,
            201 => StatusCode::Created,
            204 => StatusCode::NoContent,
            304 => StatusCode::NotModified,
            400 => StatusCode::BadRequest,
            401 => StatusCode::Unauthorized,
            403 => StatusCode::Forbidden,
            404 => StatusCode::NotFound,
            405 => StatusCode::MethodNotAllowed,
            409 => StatusCode::Conflict,
            413 => StatusCode::PayloadTooBig,
            415 => StatusCode::UnsupportedMediaType,
            429 => StatusCode::RateLimited,
            500 => StatusCode::InternalServerError,
            501 => StatusCode::NotImplemented,
            901 => StatusCode::FetchFailed,
            902 => StatusCode::FetchTimeout,
            903 => StatusCode::DecodeFailed,
            _ => StatusCode::Undefined,
        }
    }

    /// Maps a yes/no outcome to Ok or BadRequest.
    pub fn from_success(success: bool) -> (r: StatusCode)
        ensures
            r == (if success { StatusCode::Okay } else { StatusCode::BadRequest }),
    {
        if success {
            StatusCode::Okay
        } else {
            StatusCode::BadRequest
        }
    }
}

impl From<u16> for StatusCode {
    fn from(code: u16) -> (r: StatusCode) {
        StatusCode::from_code(code)
    }
}

impl vstd::std_specs::convert::FromSpecImpl<u16> for StatusCode {
    open spec fn obeys_from_spec() -> bool {
        true
    }

    open spec fn from_spec(code: u16) -> StatusCode {
        status_of_code(code)
    }
}

impl From<bool> for StatusCode {
    fn from(success: bool) -> (r: StatusCode) {
        StatusCode::from_success(success)
    }
}

impl vstd::std_specs::convert::FromSpecImpl<bool> for StatusCode {
    open spec fn obeys_from_spec() -> bool {
        true
    }

    open spec fn from_spec(success: bool) -> StatusCode {
        if success {
            StatusCode::Okay
        } else {
            StatusCode::BadRequest
        }
    }
}

} // verus!
