//! The request for a job's build list, and what its answer amounts to.

use vstd::prelude::*;
use vstd::string::StringExecFns;
use crate::history::JobHistory;

verus! {

/// Why the history of a job could not be had.
#[derive(Clone, Debug, PartialEq, Eq)]
pub enum FetchError {
    /// The request did not complete: no connection, or the timeout passed.
    Transport(String),
    /// The server answered with a status other than success.
    Status(u16),
    /// The body could not be decoded as a build list.
    Malformed(String),
}

/// The decimal digit that stands for `d`, for `d` below ten.
pub open spec fn digit(d: nat) -> char {
    seq!['0', '1', '2', '3', '4', '5', '6', '7', '8', '9'][d as int]
}

/// The decimal numeral of `n`, without leading zeros.
pub open spec fn decimal(n: nat) -> Seq<char>
    decreases n,
{
    if n < 10 {
        seq![digit(n)]
    } else {
        decimal(n / 10).push(digit(n % 10))
    }
}

/// What comes before the host in every request.
pub open spec fn url_scheme() -> Seq<char> {
    "https://"@
}

/// What stands between the host and the job's name.
pub open spec fn url_job_prefix() -> Seq<char> {
    "/job/"@
}

/// The query that asks for the six fields of every build, up to the opening
/// of the range that bounds the list.
pub open spec fn url_query() -> Seq<char> {
    "/api/json?tree=builds[number,status,timestamp,id,result,duration]{,"@
}

/// The address of the build list of `job` on `host`, bounded to the most
/// recent `last_builds` entries.
pub open spec fn spec_request_url(host: Seq<char>, job: Seq<char>, last_builds: nat) -> Seq<char> {
    url_scheme() + host + url_job_prefix() + job + url_query() + decimal(last_builds) + seq!['}']
}

/// True for the status codes that mean success.
pub open spec fn is_success_status(status: u16) -> bool {
    200 <= status < 300
}

/// What a completed request amounts to, given its status and the outcome of
/// decoding its body.
pub open spec fn spec_interpret_response(
    status: u16,
    decoded: Result<JobHistory, String>,
) -> Result<JobHistory, FetchError> {
    if !is_success_status(status) {
        Err(FetchError::Status(status))
    } else {
        match decoded {
            Ok(history) => Ok(history),
            Err(reason) => Err(FetchError::Malformed(reason)),
        }
    }
}

fn digit_of(d: usize) -> (c: char)
    requires
        d < 10,
    ensures
        c == digit(d as nat),
{
    if d == 0 {
        '0'
    } else if d == 1 {
        '1'
    } else if d == 2 {
        '2'
    } else if d == 3 {
        '3'
    } else if d == 4 {
        '4'
    } else if d == 5 {
        '5'
    } else if d == 6 {
        '6'
    } else if d == 7 {
        '7'
    } else if d == 8 {
        '8'
    } else {
        '9'
    }
}

/// Appends the decimal numeral of `n` to `out`.
pub fn push_decimal(out: &mut String, n: usize)
    ensures
        final(out)@ == old(out)@ + decimal(n as nat),
    decreases n,
{
    if n >= 10 {
        push_decimal(out, n / 10);
    }
    out.push(digit_of(n % 10));
    proof {
        assert(final(out)@ =~= old(out)@ + decimal(n as nat));
    }
}

/// Builds the address of the build list of `job` on `host`, bounded to the
/// most recent `last_builds` entries.
pub fn request_url(host: &str, job: &str, last_builds: usize) -> (url: String)
    ensures
        url@ == spec_request_url(host@, job@, last_builds as nat),
{
    let mut url = String::from_str("https://");
    url.append(host);
    url.append("/job/");
    url.append(job);
    url.append("/api/json?tree=builds[number,status,timestamp,id,result,duration]{,");
    push_decimal(&mut url, last_builds);
    url.push('}');
    url
}

/// Turns a completed request into a history or a fetch error: a status other
/// than success is an error whatever the body held, and so is a body that
/// could not be decoded.
pub fn interpret_response(status: u16, decoded: Result<JobHistory, String>) -> (r: Result<
    JobHistory,
    FetchError,
>)
    ensures
        r == spec_interpret_response(status, decoded),
{
    if status < 200 || status >= 300 {
        return Err(FetchError::Status(status));
    }
    match decoded {
        Ok(history) => Ok(history),
        Err(reason) => Err(FetchError::Malformed(reason)),
    }
}

} // verus!
