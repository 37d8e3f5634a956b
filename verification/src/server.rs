//! The connection server's per-line step: decode, dispatch, encode.
//!
//! Each connection reads a line, dispatches it through the cache manager,
//! and writes one response line back, in arrival order. A line that cannot
//! be decoded is answered with an error response carrying id 0, since the
//! malformed request's own id cannot be trusted, and the connection stays
//! open. A decoded shutdown query is answered normally and additionally
//! raises the stop flag, on which the surrounding accept loop terminates.

use vstd::prelude::*;
use crate::cache::{spec_execute_post, CacheManager};
use crate::codec_req::{decode_request, sp_request, query_view, req_view};
use crate::codec_resp::{
    enc_error_response, enc_pong_response, enc_shutdown_response, encode_response,
    spec_enc_response,
};
use crate::protocol::{CrateTypeInfo, Query, QueryResult, Request, Response};

verus! {

/// The message of the id-0 protocol error for an unreadable line.
pub open spec fn protocol_error_msg() -> Seq<char> {
    "Failed to parse request: malformed request line"@
}

/// Dispatch one decoded request: the response carries the request's id and
/// the cache manager's answer.
pub fn dispatch(
    mgr: &mut CacheManager,
    req: &Request,
    extraction: Option<Vec<CrateTypeInfo>>,
) -> (r: Response)
    ensures
        r.id == req.id,
        spec_execute_post(
            *old(mgr),
            *final(mgr),
            req.crate_name@,
            req.query,
            extraction,
            r.result,
        ),
        old(mgr).wf() ==> final(mgr).wf(),
{
    let result = mgr.execute_query(&req.crate_name, &req.query, extraction);
    Response { id: req.id, result }
}

/// Whether the decoded query asks the daemon to stop.
pub fn is_shutdown_request(req: &Request) -> (r: bool)
    ensures
        r == (req.query is Shutdown),
{
    match req.query {
        Query::Shutdown => true,
        _ => false,
    }
}

/// Serve one request line: the response line to write back, and whether
/// the accept loop must stop after it is flushed. For every decoded
/// request, the written line is the canonical spelling of a response that
/// carries the request's own id and a result the cache manager's step
/// contract admits for that unit and query — so each request is answered
/// by its own answer, in arrival order, one line per line.
pub fn process_request_line(
    mgr: &mut CacheManager,
    line: &str,
    extraction: Option<Vec<CrateTypeInfo>>,
) -> (r: (String, bool))
    ensures
        match sp_request(line@) {
            Option::None => {
                &&& r.0@ == enc_error_response(0, protocol_error_msg())
                &&& r.1 == false
                &&& final(mgr).entries() == old(mgr).entries()
            },
            Option::Some(rv) => {
                &&& r.1 == (rv.query is Shutdown)
                &&& exists|q: Query, result: QueryResult|
                    query_view(q) == rv.query && #[trigger] spec_execute_post(
                        *old(mgr),
                        *final(mgr),
                        rv.crate_name,
                        q,
                        extraction,
                        result,
                    ) && r.0@ == spec_enc_response(rv.id as int, result)
                &&& (rv.query is Ping ==> r.0@ == enc_pong_response(rv.id as int)
                    && final(mgr).entries() == old(mgr).entries())
                &&& (rv.query is Shutdown ==> r.0@ == enc_shutdown_response(rv.id as int)
                    && final(mgr).entries() == old(mgr).entries())
            },
        },
        old(mgr).wf() ==> final(mgr).wf(),
{
    match decode_request(line) {
        Ok(req) => {
            let shutdown = is_shutdown_request(&req);
            let ghost pre = *mgr;
            let ghost ext = extraction;
            let resp = dispatch(mgr, &req, extraction);
            let out = encode_response(&resp);
            proof {
                let rv = sp_request(line@).unwrap();
                assert(rv == req_view(req));
                assert(query_view(req.query) == rv.query);
                assert(req.crate_name@ == rv.crate_name);
                assert(resp.id == rv.id);
                assert(spec_execute_post(pre, *mgr, rv.crate_name, req.query, ext, resp.result));
                assert(out@ == spec_enc_response(rv.id as int, resp.result));
                if req.query is Ping {
                    assert(resp.result == (QueryResult::Success {
                        data: crate::protocol::QueryData::Pong,
                    }));
                }
                if req.query is Shutdown {
                    assert(resp.result == (QueryResult::Success {
                        data: crate::protocol::QueryData::ShuttingDown,
                    }));
                }
            }
            (out, shutdown)
        },
        Err(_) => {
            let resp = Response {
                id: 0,
                result: QueryResult::Error {
                    message: String::from_str(
                        "Failed to parse request: malformed request line",
                    ),
                },
            };
            let out = encode_response(&resp);
            (out, false)
        },
    }
}

} // verus!
