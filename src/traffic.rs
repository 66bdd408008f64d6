//! Request counters and the decisions of the traffic interceptor: which
//! counter a request bumps, and what becomes of each response.

use vstd::prelude::*;
use vstd::string::StringSliceAdditionalSpecFns;

verus! {

/// The class of a request's method, as far as the counters care.
#[derive(PartialEq, Eq, Structural, Clone, Copy, Debug)]
pub enum RequestMethod {
    Get,
    Post,
    Other,
}

/// The status code of a response that found nothing.
pub const NOT_FOUND: u16 = 404;

/// `n` plus one, held at the largest `usize`.
pub open spec fn saturated(n: nat) -> nat {
    if n > usize::MAX {
        usize::MAX as nat
    } else {
        n
    }
}

/// The counters `(get, post)` after one request with method `m`.
pub open spec fn after_request(c: (nat, nat), m: RequestMethod) -> (nat, nat) {
    match m {
        RequestMethod::Get => (saturated(c.0 + 1), c.1),
        RequestMethod::Post => (c.0, saturated(c.1 + 1)),
        RequestMethod::Other => c,
    }
}

/// One step of a counter: one more, or the same at the largest `usize`.
pub fn bump(n: usize) -> (r: usize)
    ensures
        r as nat == saturated(n as nat + 1),
{
    if n < usize::MAX {
        n + 1
    } else {
        n
    }
}

/// The decimal digits of `n`, most significant first, as ASCII bytes.
pub open spec fn decimal(n: nat) -> Seq<u8>
    decreases n,
{
    if n < 10 {
        seq![(48 + n) as u8]
    } else {
        decimal(n / 10).push((48 + n % 10) as u8)
    }
}

/// The text of the counts report: `Get: <get>\nPost: <post>\n`.
pub open spec fn report_body(get: nat, post: nat) -> Seq<u8> {
    seq![71u8, 101, 116, 58, 32] + decimal(get) + seq![10u8, 80, 111, 115, 116, 58, 32] + decimal(
        post,
    ) + seq![10u8]
}

/// The path that the interceptor answers itself: `/counts`.
pub open spec fn diagnostic_path() -> Seq<u8> {
    seq![47u8, 99, 111, 117, 110, 116, 115]
}

fn push_decimal(out: &mut Vec<u8>, n: usize)
    ensures
        final(out)@ == old(out)@ + decimal(n as nat),
    decreases n,
{
    if n >= 10 {
        push_decimal(out, n / 10);
    }
    let d: u8 = (48 + n % 10) as u8;
    out.push(d);
    proof {
        if n >= 10 {
            assert(out@ =~= old(out)@ + decimal(n as nat));
        } else {
            assert(out@ =~= old(out)@ + decimal(n as nat));
        }
    }
}

/// The body of the counts report for the given counts.
pub fn render_report(get: usize, post: usize) -> (r: Vec<u8>)
    ensures
        r@ == report_body(get as nat, post as nat),
{
    let mut out: Vec<u8> = vec![71u8, 101, 116, 58, 32];
    push_decimal(&mut out, get);
    out.push(10u8);
    out.push(80u8);
    out.push(111u8);
    out.push(115u8);
    out.push(116u8);
    out.push(58u8);
    out.push(32u8);
    push_decimal(&mut out, post);
    out.push(10u8);
    assert(out@ =~= report_body(get as nat, post as nat));
    out
}

/// Whether `path` is exactly the diagnostic path.
pub fn is_diagnostic_path(path: &str) -> (r: bool)
    ensures
        r == (path.spec_bytes() == diagnostic_path()),
{
    let b = path.as_bytes();
    if b.len() != 7 {
        return false;
    }
    let r = b[0] == 47u8 && b[1] == 99u8 && b[2] == 111u8 && b[3] == 117u8 && b[4] == 110u8
        && b[5] == 116u8 && b[6] == 115u8;
    if r {
        assert(b@ =~= diagnostic_path());
    } else {
        assert(b@ != diagnostic_path()) by {
            if b@ == diagnostic_path() {
                assert(b@[0] == diagnostic_path()[0]);
            }
        }
    }
    r
}

/// What the interceptor does with a response before it is sent.
pub enum ResponseAction {
    /// Send the response with both counts attached as headers.
    Annotate { get: usize, post: usize },
    /// Send the not-found response as it is.
    PassThrough,
    /// Drop the response and send a success with this plain-text body.
    Report(Vec<u8>),
}

impl ResponseAction {
    /// Whether this is the report with exactly the bytes `body`.
    pub open spec fn is_report_of(self, body: Seq<u8>) -> bool {
        match self {
            ResponseAction::Report(b) => b@ == body,
            _ => false,
        }
    }
}

/// What becomes of a response with status `status` to a request with method
/// `method` for `path`, given the counts read at that moment. A response that
/// found something gets the counts as headers; a not-found to a read of the
/// diagnostic path becomes the counts report; any other not-found is left
/// alone.
pub fn response_action(status: u16, method: RequestMethod, path: &str, get: usize, post: usize) -> (r:
    ResponseAction)
    ensures
        status != NOT_FOUND ==> r == (ResponseAction::Annotate { get, post }),
        status == NOT_FOUND && method == RequestMethod::Get && path.spec_bytes()
            == diagnostic_path() ==> r.is_report_of(report_body(get as nat, post as nat)),
        status == NOT_FOUND && !(method == RequestMethod::Get && path.spec_bytes()
            == diagnostic_path()) ==> r is PassThrough,
{
    if status != NOT_FOUND {
        ResponseAction::Annotate { get, post }
    } else if method == RequestMethod::Get && is_diagnostic_path(path) {
        ResponseAction::Report(render_report(get, post))
    } else {
        ResponseAction::PassThrough
    }
}

/// The process-wide request counters: one for reads, one for writes. They
/// only grow, and stop at the largest `usize`.
pub struct Counter {
    get: usize,
    post: usize,
}

impl View for Counter {
    type V = (nat, nat);

    closed spec fn view(&self) -> (nat, nat) {
        (self.get as nat, self.post as nat)
    }
}

impl Counter {
    /// Both counts at zero.
    pub fn new() -> (r: Counter)
        ensures
            r@ == (0nat, 0nat),
    {
        Counter { get: 0, post: 0 }
    }

    /// The number of read requests seen.
    pub fn get_count(&self) -> (r: usize)
        ensures
            r as nat == self@.0,
    {
        self.get
    }

    /// The number of write requests seen.
    pub fn post_count(&self) -> (r: usize)
        ensures
            r as nat == self@.1,
    {
        self.post
    }

    /// The request phase: a read bumps the read count, a write the write
    /// count, any other method neither.
    pub fn on_request(&mut self, method: RequestMethod)
        ensures
            final(self)@ == after_request(old(self)@, method),
    {
        match method {
            RequestMethod::Get => self.get = bump(self.get),
            RequestMethod::Post => self.post = bump(self.post),
            RequestMethod::Other => {},
        }
    }

    /// The response phase, on the counts as they stand now.
    pub fn on_response(&self, status: u16, method: RequestMethod, path: &str) -> (r:
        ResponseAction)
        ensures
            status != NOT_FOUND ==> r == (ResponseAction::Annotate {
                get: self@.0 as usize,
                post: self@.1 as usize,
            }),
            status == NOT_FOUND && method == RequestMethod::Get && path.spec_bytes()
                == diagnostic_path() ==> r.is_report_of(report_body(self@.0, self@.1)),
            status == NOT_FOUND && !(method == RequestMethod::Get && path.spec_bytes()
                == diagnostic_path()) ==> r is PassThrough,
    {
        response_action(status, method, path, self.get, self.post)
    }
}

} // verus!
