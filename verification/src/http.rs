//! Request routing for the connection handler.
//!
//! The pool's caller reads a raw request, decides a response, and writes
//! bytes back. The deciding lives here: which status line and which page a
//! request earns, and whether the handler should simulate a slow response
//! first. Reading the socket and the page file stays with the caller.

use vstd::prelude::*;

verus! {

/// What the connection handler should do with one request: answer with
/// `status_line`, serve the page in `filename`, and — for the slow route —
/// pause first.
pub struct ResponsePlan {
    pub status_line: &'static str,
    pub filename: &'static str,
    pub slow: bool,
}

/// The request line of a plain request for the root page.
pub open spec fn asks_for_root(request: Seq<char>) -> bool {
    "GET / HTTP/1.1\r\n"@.is_prefix_of(request)
}

/// The request line of the deliberately slow route.
pub open spec fn asks_for_sleep(request: Seq<char>) -> bool {
    "GET /sleep HTTP/1.1\r\n"@.is_prefix_of(request)
}

/// Whether `s` begins with `prefix`, character for character.
pub fn str_starts_with(s: &str, prefix: &str) -> (r: bool)
    ensures
        r == prefix@.is_prefix_of(s@),
{
    let n = prefix.unicode_len();
    if s.unicode_len() < n {
        return false;
    }
    let mut i: usize = 0;
    while i < n
        invariant
            i <= n,
            n == prefix@.len(),
            n <= s@.len(),
            forall|j: int| 0 <= j < i ==> s@[j] == prefix@[j],
        decreases n - i,
    {
        if s.get_char(i) != prefix.get_char(i) {
            proof {
                if prefix@.is_prefix_of(s@) {
                    assert(prefix@[i as int] == s@.subrange(0, prefix@.len() as int)[i as int]);
                }
            }
            return false;
        }
        i = i + 1;
    }
    proof {
        assert(prefix@ =~= s@.subrange(0, prefix@.len() as int));
    }
    true
}

/// Decide the response for one raw request: the root page for a plain
/// `GET /`, the same page after a deliberate pause for `GET /sleep`, and
/// the not-found page for anything else.
pub fn plan_response(request: &str) -> (r: ResponsePlan)
    ensures
        asks_for_root(request@) ==> {
            &&& r.status_line@ == "HTTP/1.1 200 OK\r\n\r\n"@
            &&& r.filename@ == "hello.html"@
            &&& !r.slow
        },
        !asks_for_root(request@) && asks_for_sleep(request@) ==> {
            &&& r.status_line@ == "HTTP/1.1 200 OK\r\n\r\n"@
            &&& r.filename@ == "hello.html"@
            &&& r.slow
        },
        !asks_for_root(request@) && !asks_for_sleep(request@) ==> {
            &&& r.status_line@ == "HTTP/1.1 404 NOT FOUND\r\n\r\n"@
            &&& r.filename@ == "404.html"@
            &&& !r.slow
        },
{
    if str_starts_with(request, "GET / HTTP/1.1\r\n") {
        ResponsePlan { status_line: "HTTP/1.1 200 OK\r\n\r\n", filename: "hello.html", slow: false }
    } else if str_starts_with(request, "GET /sleep HTTP/1.1\r\n") {
        ResponsePlan { status_line: "HTTP/1.1 200 OK\r\n\r\n", filename: "hello.html", slow: true }
    } else {
        ResponsePlan {
            status_line: "HTTP/1.1 404 NOT FOUND\r\n\r\n",
            filename: "404.html",
            slow: false,
        }
    }
}

/// The full response: the status line followed by the page contents.
pub fn build_response(status_line: &str, contents: &str) -> (r: String)
    ensures
        r@ == status_line@ + contents@,
{
    let mut response = status_line.to_owned();
    response.append(contents);
    response
}

} // verus!
