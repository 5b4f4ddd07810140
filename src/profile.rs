//! The operator-controlled response profile: the status code and body
//! that every captured request is answered with.

use vstd::prelude::*;

use crate::text::{decimal, decimal_text, parse_u16, u16_text_value};

verus! {

/// The status code and body returned to every request, and the text the
/// operator last typed for the status code.
#[derive(Clone, Debug)]
pub struct ResponseConfig {
    pub status_code: u16,
    pub status_code_input: String,
    pub response_body: String,
}

/// A status code the profile accepts.
pub open spec fn valid_status(code: int) -> bool {
    100 <= code <= 599
}

impl ResponseConfig {
    /// The profile's invariant: the stored status is always a valid one.
    pub open spec fn wf(&self) -> bool {
        valid_status(self.status_code as int)
    }

    /// The `(status, body)` pair this profile answers with.
    pub open spec fn profile(&self) -> (u16, Seq<char>) {
        (self.status_code, self.response_body@)
    }
}

impl Default for ResponseConfig {
    fn default() -> (r: ResponseConfig)
        ensures
            r.wf(),
            r.status_code == 200,
            r.status_code_input@ == "200"@,
            r.response_body@ == "OK\n"@,
    {
        ResponseConfig {
            status_code: 200,
            status_code_input: "200".to_owned(),
            response_body: "OK\n".to_owned(),
        }
    }
}

/// The response actually sent for a stored `(status, body)` pair: the pair
/// itself, or a plain `200` with `OK` where the status is not a valid one.
pub open spec fn response_for(status: u16, body: Seq<char>) -> (u16, Seq<char>) {
    if valid_status(status as int) {
        (status, body)
    } else {
        (200, "OK\n"@)
    }
}

/// The response to send for a stored `(status, body)` pair (see [`response_for`]).
pub fn response_parts(status: u16, body: String) -> (r: (u16, String))
    ensures
        (r.0, r.1@) == response_for(status, body@),
{
    if 100 <= status && status <= 599 {
        (status, body)
    } else {
        (200, "OK\n".to_owned())
    }
}

impl ResponseConfig {
    /// A consistent copy of the stored `(status, body)` pair.
    pub fn read(&self) -> (r: (u16, String))
        ensures
            (r.0, r.1@) == self.profile(),
    {
        (self.status_code, self.response_body.clone())
    }

    /// The response that a request completing now receives.
    pub fn response(&self) -> (r: (u16, String))
        requires
            self.wf(),
        ensures
            (r.0, r.1@) == self.profile(),
    {
        let (status, body) = self.read();
        response_parts(status, body)
    }

    /// Sets status and body together. A status outside `100..=599` is
    /// rejected and nothing changes.
    pub fn set_response(&mut self, status: u16, body: String) -> (r: bool)
        requires
            old(self).wf(),
        ensures
            final(self).wf(),
            r == valid_status(status as int),
            r ==> final(self).profile() == (status, body@),
            r ==> final(self).status_code_input@ == decimal(status as nat),
            !r ==> *final(self) == *old(self),
    {
        if 100 <= status && status <= 599 {
            self.status_code = status;
            self.status_code_input = decimal_text(status as u64);
            self.response_body = body;
            true
        } else {
            false
        }
    }

    /// Records the operator's status text; when it reads as a valid status
    /// code, that code becomes the stored status. The body never changes.
    pub fn edit_status_input(&mut self, text: String) -> (r: bool)
        requires
            old(self).wf(),
        ensures
            final(self).wf(),
            final(self).status_code_input@ == text@,
            final(self).response_body == old(self).response_body,
            r == (u16_text_value(text@) matches Some(c) && valid_status(c as int)),
            r ==> Some(final(self).status_code) == u16_text_value(text@),
            !r ==> final(self).status_code == old(self).status_code,
    {
        let parsed = parse_u16(text.as_str());
        self.status_code_input = text;
        match parsed {
            Some(c) => {
                if 100 <= c && c <= 599 {
                    self.status_code = c;
                    true
                } else {
                    false
                }
            },
            None => false,
        }
    }

    /// Replaces the body; the status is kept.
    pub fn set_body(&mut self, body: String)
        ensures
            final(self).profile() == (old(self).status_code, body@),
            final(self).status_code_input == old(self).status_code_input,
    {
        self.response_body = body;
    }
}

/// The English reason phrase of a status code, or `Unknown Status Code`.
pub open spec fn status_description(code: u16) -> Seq<char> {
    match code {
        100 => "Continue"@,
        101 => "Switching Protocols"@,
        102 => "Processing"@,
        103 => "Early Hints"@,
        200 => "OK"@,
        201 => "Created"@,
        202 => "Accepted"@,
        203 => "Non-Authoritative Information"@,
        204 => "No Content"@,
        205 => "Reset Content"@,
        206 => "Partial Content"@,
        300 => "Multiple Choices"@,
        301 => "Moved Permanently"@,
        302 => "Found"@,
        303 => "See Other"@,
        304 => "Not Modified"@,
        307 => "Temporary Redirect"@,
        308 => "Permanent Redirect"@,
        400 => "Bad Request"@,
        401 => "Unauthorized"@,
        402 => "Payment Required"@,
        403 => "Forbidden"@,
        404 => "Not Found"@,
        405 => "Method Not Allowed"@,
        406 => "Not Acceptable"@,
        407 => "Proxy Authentication Required"@,
        408 => "Request Timeout"@,
        409 => "Conflict"@,
        410 => "Gone"@,
        411 => "Length Required"@,
        412 => "Precondition Failed"@,
        413 => "Payload Too Large"@,
        414 => "URI Too Long"@,
        415 => "Unsupported Media Type"@,
        416 => "Range Not Satisfiable"@,
        417 => "Expectation Failed"@,
        418 => "I'm a teapot"@,
        422 => "Unprocessable Entity"@,
        423 => "Locked"@,
        424 => "Failed Dependency"@,
        425 => "Too Early"@,
        426 => "Upgrade Required"@,
        428 => "Precondition Required"@,
        429 => "Too Many Requests"@,
        431 => "Request Header Fields Too Large"@,
        451 => "Unavailable For Legal Reasons"@,
        500 => "Internal Server Error"@,
        501 => "Not Implemented"@,
        502 => "Bad Gateway"@,
        503 => "Service Unavailable"@,
        504 => "Gateway Timeout"@,
        505 => "HTTP Version Not Supported"@,
        506 => "Variant Also Negotiates"@,
        507 => "Insufficient Storage"@,
        508 => "Loop Detected"@,
        510 => "Not Extended"@,
        511 => "Network Authentication Required"@,
        _ => "Unknown Status Code"@,
    }
}

/// The reason phrase shown beside a status code (see [`status_description`]).
pub fn get_status_description(code: u16) -> (r: &'static str)
    ensures
        r@ == status_description(code),
{
    match code {
        100 => "Continue",
        101 => "Switching Protocols",
        102 => "Processing",
        103 => "Early Hints",
        200 => "OK",
        201 => "Created",
        202 => "Accepted",
        203 => "Non-Authoritative Information",
        204 => "No Content",
        205 => "Reset Content",
        206 => "Partial Content",
        300 => "Multiple Choices",
        301 => "Moved Permanently",
        302 => "Found",
        303 => "See Other",
        304 => "Not Modified",
        307 => "Temporary Redirect",
        308 => "Permanent Redirect",
        400 => "Bad Request",
        401 => "Unauthorized",
        402 => "Payment Required",
        403 => "Forbidden",
        404 => "Not Found",
        405 => "Method Not Allowed",
        406 => "Not Acceptable",
        407 => "Proxy Authentication Required",
        408 => "Request Timeout",
        409 => "Conflict",
        410 => "Gone",
        411 => "Length Required",
        412 => "Precondition Failed",
        413 => "Payload Too Large",
        414 => "URI Too Long",
        415 => "Unsupported Media Type",
        416 => "Range Not Satisfiable",
        417 => "Expectation Failed",
        418 => "I'm a teapot",
        422 => "Unprocessable Entity",
        423 => "Locked",
        424 => "Failed Dependency",
        425 => "Too Early",
        426 => "Upgrade Required",
        428 => "Precondition Required",
        429 => "Too Many Requests",
        431 => "Request Header Fields Too Large",
        451 => "Unavailable For Legal Reasons",
        500 => "Internal Server Error",
        501 => "Not Implemented",
        502 => "Bad Gateway",
        503 => "Service Unavailable",
        504 => "Gateway Timeout",
        505 => "HTTP Version Not Supported",
        506 => "Variant Also Negotiates",
        507 => "Insufficient Storage",
        508 => "Loop Detected",
        510 => "Not Extended",
        511 => "Network Authentication Required",
        _ => "Unknown Status Code",
    }
}

} // verus!
