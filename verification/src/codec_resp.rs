//! The response codec: one response per line of structured text.
//!
//! The decoder accepts the canonical spelling only — both peers are this
//! library, and anything else is a typed protocol error. The envelope —
//! the id, the status, an error's message, and the liveness and shutdown
//! payloads — is specified exactly: those spellings parse back to what was
//! encoded, so correlation and the shutdown handshake rest on proved
//! ground. Data payload contents are spelled exactly by the payload codec;
//! a decoded payload is always one the line spells.

use vstd::prelude::*;
use crate::chars::{from_chars, lit_at, occurs_at, to_chars};
use crate::codec_data::{emit_query_data, parse_query_data, se_query_data};
use crate::codec_prim::{
    dec_u64, emit_raw, emit_str_lit, emit_u64, lemma_dec_u64_facts, lemma_esc_str_nl_free,
    lemma_sp_str_lit_at, lemma_sp_u64_at, parse_str_lit, parse_u64, sp_str_lit, sp_u64, str_lit,
    is_dec_digit,
};
use crate::codec_req::{lemma_concat7, tk_req_head};
use crate::protocol::{QueryData, QueryResult, Response};

verus! {

/// `,"result":`
pub open spec fn tk_result() -> Seq<char> {
    seq![',', '"', 'r', 'e', 's', 'u', 'l', 't', '"', ':']
}

/// `{"status":"error","message":`
pub open spec fn tk_err_head() -> Seq<char> {
    seq![
        '{', '"', 's', 't', 'a', 't', 'u', 's', '"', ':', '"', 'e', 'r', 'r', 'o', 'r', '"', ',',
        '"', 'm', 'e', 's', 's', 'a', 'g', 'e', '"', ':',
    ]
}

/// `{"status":"success","data":`
pub open spec fn tk_succ_head() -> Seq<char> {
    seq![
        '{', '"', 's', 't', 'a', 't', 'u', 's', '"', ':', '"', 's', 'u', 'c', 'c', 'e', 's', 's',
        '"', ',', '"', 'd', 'a', 't', 'a', '"', ':',
    ]
}

/// `{"type":"pong"}`
pub open spec fn data_pong() -> Seq<char> {
    seq!['{', '"', 't', 'y', 'p', 'e', '"', ':', '"', 'p', 'o', 'n', 'g', '"', '}']
}

/// `{"type":"shutting_down"}`
pub open spec fn data_shutting_down() -> Seq<char> {
    seq![
        '{', '"', 't', 'y', 'p', 'e', '"', ':', '"', 's', 'h', 'u', 't', 't', 'i', 'n', 'g', '_',
        'd', 'o', 'w', 'n', '"', '}',
    ]
}

/// The canonical spelling of an error response.
pub open spec fn enc_error_response(id: int, msg: Seq<char>) -> Seq<char> {
    tk_req_head() + dec_u64(id) + tk_result() + tk_err_head() + str_lit(msg) + seq!['}', '}']
}

/// The canonical spelling of a liveness reply.
pub open spec fn enc_pong_response(id: int) -> Seq<char> {
    tk_req_head() + dec_u64(id) + tk_result() + tk_succ_head() + data_pong() + seq!['}', '}']
}

/// The canonical spelling of a shutdown acknowledgement.
pub open spec fn enc_shutdown_response(id: int) -> Seq<char> {
    tk_req_head() + dec_u64(id) + tk_result() + tk_succ_head() + data_shutting_down() + seq![
        '}',
        '}',
    ]
}

/// The pinned prefix of every successful response.
pub open spec fn enc_success_prefix(id: int) -> Seq<char> {
    tk_req_head() + dec_u64(id) + tk_result() + tk_succ_head()
}

/// The canonical spelling of any result, after the response head.
pub open spec fn spec_enc_result(result: QueryResult) -> Seq<char> {
    match result {
        QueryResult::Error { message } => tk_err_head() + str_lit(message@) + seq!['}', '}'],
        QueryResult::Success { data } => tk_succ_head() + se_query_data(data) + seq!['}', '}'],
    }
}

/// The canonical spelling of a whole response line.
pub open spec fn spec_enc_response(id: int, result: QueryResult) -> Seq<char> {
    tk_req_head() + dec_u64(id) + tk_result() + spec_enc_result(result)
}

/// The envelope of a response line: who it answers and how.
pub enum RespEnvV {
    /// A typed failure and its message.
    Failure { id: u64, message: Seq<char> },
    /// The liveness reply.
    Pong { id: u64 },
    /// The shutdown acknowledgement.
    ShuttingDown { id: u64 },
    /// A successful reply carrying a data payload.
    DataSuccess { id: u64 },
}

/// Read a response line's envelope. Failure, liveness and shutdown lines
/// are validated to their end; a data line is classified by its head alone.
pub open spec fn sp_resp_envelope(s: Seq<char>) -> Option<RespEnvV> {
    if occurs_at(s, tk_req_head(), 0) {
        match sp_u64(s, 6) {
            Option::Some((v, j)) => {
                if v <= u64::MAX && occurs_at(s, tk_result(), j) {
                    let k = j + 10;
                    if occurs_at(s, tk_err_head(), k) {
                        match sp_str_lit(s, k + 28) {
                            Option::Some((msg, m)) => {
                                if m + 2 == s.len() && s[m] == '}' && s[m + 1] == '}' {
                                    Option::Some(RespEnvV::Failure { id: v as u64, message: msg })
                                } else {
                                    Option::None
                                }
                            },
                            Option::None => Option::None,
                        }
                    } else if occurs_at(s, tk_succ_head(), k) {
                        let d = k + 27;
                        if occurs_at(s, data_pong(), d) && d + 17 == s.len() && s[d + 15] == '}'
                            && s[d + 16] == '}' {
                            Option::Some(RespEnvV::Pong { id: v as u64 })
                        } else if occurs_at(s, data_shutting_down(), d) && d + 26 == s.len() && s[d
                            + 24] == '}' && s[d + 25] == '}' {
                            Option::Some(RespEnvV::ShuttingDown { id: v as u64 })
                        } else {
                            Option::Some(RespEnvV::DataSuccess { id: v as u64 })
                        }
                    } else {
                        Option::None
                    }
                } else {
                    Option::None
                }
            },
            Option::None => Option::None,
        }
    } else {
        Option::None
    }
}

/// Encode a response as its canonical line: the id and status are pinned
/// for every variant, and failure, liveness and shutdown lines are pinned
/// whole.
pub fn encode_response(resp: &Response) -> (r: String)
    ensures
        r@ == spec_enc_response(resp.id as int, resp.result),
        match resp.result {
            QueryResult::Error { message } => r@ == enc_error_response(
                resp.id as int,
                message@,
            ),
            QueryResult::Success { data: QueryData::Pong } => r@ == enc_pong_response(
                resp.id as int,
            ),
            QueryResult::Success { data: QueryData::ShuttingDown } => r@ == enc_shutdown_response(
                resp.id as int,
            ),
            QueryResult::Success { data: _ } => r@.len() >= enc_success_prefix(
                resp.id as int,
            ).len() && r@.take(enc_success_prefix(resp.id as int).len() as int)
                == enc_success_prefix(resp.id as int),
        },
{
    let mut out: Vec<char> = Vec::new();
    emit_raw(&mut out, "{\"id\":");
    emit_u64(&mut out, resp.id);
    emit_raw(&mut out, ",\"result\":");
    proof {
        reveal_strlit("{\"id\":");
        reveal_strlit(",\"result\":");
        assert("{\"id\":"@ =~= tk_req_head());
        assert(",\"result\":"@ =~= tk_result());
    }
    match &resp.result {
        QueryResult::Error { message } => {
            emit_raw(&mut out, "{\"status\":\"error\",\"message\":");
            emit_str_lit(&mut out, message.as_str());
            emit_raw(&mut out, "}}");
            proof {
                reveal_strlit("{\"status\":\"error\",\"message\":");
                reveal_strlit("}}");
                assert("{\"status\":\"error\",\"message\":"@ =~= tk_err_head());
                assert("}}"@ =~= seq!['}', '}']);
                assert(out@ =~= enc_error_response(resp.id as int, message@));
                assert(out@ =~= spec_enc_response(resp.id as int, resp.result));
            }
        },
        QueryResult::Success { data } => {
            emit_raw(&mut out, "{\"status\":\"success\",\"data\":");
            proof {
                reveal_strlit("{\"status\":\"success\",\"data\":");
                assert("{\"status\":\"success\",\"data\":"@ =~= tk_succ_head());
                assert(out@ =~= enc_success_prefix(resp.id as int));
            }
            match data {
                QueryData::Pong => {
                    emit_raw(&mut out, "{\"type\":\"pong\"}");
                    emit_raw(&mut out, "}}");
                    proof {
                        reveal_strlit("{\"type\":\"pong\"}");
                        reveal_strlit("}}");
                        assert("{\"type\":\"pong\"}"@ =~= data_pong());
                        assert("}}"@ =~= seq!['}', '}']);
                        assert(out@ =~= enc_pong_response(resp.id as int));
                        reveal_strlit("{\"type\":\"pong\"}");
                        assert(out@ =~= spec_enc_response(resp.id as int, resp.result));
                    }
                },
                QueryData::ShuttingDown => {
                    emit_raw(&mut out, "{\"type\":\"shutting_down\"}");
                    emit_raw(&mut out, "}}");
                    proof {
                        reveal_strlit("{\"type\":\"shutting_down\"}");
                        reveal_strlit("}}");
                        assert("{\"type\":\"shutting_down\"}"@ =~= data_shutting_down());
                        assert("}}"@ =~= seq!['}', '}']);
                        assert(out@ =~= enc_shutdown_response(resp.id as int));
                        reveal_strlit("{\"type\":\"shutting_down\"}");
                        assert(out@ =~= spec_enc_response(resp.id as int, resp.result));
                    }
                },
                _ => {
                    let ghost prefix = out@;
                    let mut payload: Vec<char> = Vec::new();
                    emit_query_data(&mut payload, data);
                    let mut p = payload;
                    out.append(&mut p);
                    emit_raw(&mut out, "}}");
                    proof {
                        reveal_strlit("}}");
                        assert(out@.take(prefix.len() as int) =~= prefix);
                        assert(out@ =~= spec_enc_response(resp.id as int, resp.result));
                    }
                },
            }
        },
    }
    from_chars(out.as_slice())
}

/// Decode a response line: the envelope decides, and what is handed back
/// carries exactly the envelope's id and status.
pub fn decode_response(line: &str) -> (r: Option<Response>)
    ensures
        match sp_resp_envelope(line@) {
            Option::Some(RespEnvV::Failure { id, message }) => match r {
                Some(resp) => resp.id == id && match resp.result {
                    QueryResult::Error { message: m } => m@ == message,
                    _ => false,
                },
                None => false,
            },
            Option::Some(RespEnvV::Pong { id }) => match r {
                Some(resp) => resp.id == id && resp.result == (QueryResult::Success {
                    data: QueryData::Pong,
                }),
                None => false,
            },
            Option::Some(RespEnvV::ShuttingDown { id }) => match r {
                Some(resp) => resp.id == id && resp.result == (QueryResult::Success {
                    data: QueryData::ShuttingDown,
                }),
                None => false,
            },
            Option::Some(RespEnvV::DataSuccess { id }) => match r {
                Some(resp) => resp.id == id && match resp.result {
                    QueryResult::Success { data } => exists|a: int, b: int|
                        0 <= a <= b <= line@.len() && #[trigger] line@.subrange(a, b)
                            == se_query_data(data),
                    _ => false,
                },
                None => true,
            },
            Option::None => r is None,
        },
{
    let s_vec = to_chars(line);
    let s = s_vec.as_slice();
    let head: Vec<char> = vec!['{', '"', 'i', 'd', '"', ':'];
    proof {
        assert(head@ =~= tk_req_head());
    }
    if !lit_at(s, 0, head.as_slice()) {
        return None;
    }
    let (id, j) = match parse_u64(s, 6) {
        Some(p) => p,
        None => {
            return None;
        },
    };
    let result_tok: Vec<char> = vec![',', '"', 'r', 'e', 's', 'u', 'l', 't', '"', ':'];
    proof {
        assert(result_tok@ =~= tk_result());
    }
    if !lit_at(s, j, result_tok.as_slice()) {
        return None;
    }
    let k = j + 10;
    let err_tok: Vec<char> = vec![
        '{', '"', 's', 't', 'a', 't', 'u', 's', '"', ':', '"', 'e', 'r', 'r', 'o', 'r', '"', ',',
        '"', 'm', 'e', 's', 's', 'a', 'g', 'e', '"', ':',
    ];
    proof {
        assert(err_tok@ =~= tk_err_head());
    }
    if lit_at(s, k, err_tok.as_slice()) {
        proof {
            assert(k + 28 <= s@.len());
        }
        let (msg, m) = match parse_str_lit(s, k + 28) {
            Some(p) => p,
            None => {
                return None;
            },
        };
        if s.len() - m == 2 && s[m] == '}' && s[m + 1] == '}' {
            return Some(
                Response {
                    id,
                    result: QueryResult::Error { message: from_chars(msg.as_slice()) },
                },
            );
        }
        return None;
    }
    let succ_tok: Vec<char> = vec![
        '{', '"', 's', 't', 'a', 't', 'u', 's', '"', ':', '"', 's', 'u', 'c', 'c', 'e', 's', 's',
        '"', ',', '"', 'd', 'a', 't', 'a', '"', ':',
    ];
    proof {
        assert(succ_tok@ =~= tk_succ_head());
    }
    if !lit_at(s, k, succ_tok.as_slice()) {
        return None;
    }
    let d = k + 27;
    let pong_tok: Vec<char> = vec![
        '{', '"', 't', 'y', 'p', 'e', '"', ':', '"', 'p', 'o', 'n', 'g', '"', '}',
    ];
    let sd_tok: Vec<char> = vec![
        '{', '"', 't', 'y', 'p', 'e', '"', ':', '"', 's', 'h', 'u', 't', 't', 'i', 'n', 'g', '_',
        'd', 'o', 'w', 'n', '"', '}',
    ];
    proof {
        assert(pong_tok@ =~= data_pong());
        assert(sd_tok@ =~= data_shutting_down());
        assert(d <= s@.len());
    }
    if lit_at(s, d, pong_tok.as_slice()) && s.len() - d == 17 && s[d + 15] == '}' && s[d + 16]
        == '}' {
        return Some(Response { id, result: QueryResult::Success { data: QueryData::Pong } });
    }
    if lit_at(s, d, sd_tok.as_slice()) && s.len() - d == 26 && s[d + 24] == '}' && s[d + 25]
        == '}' {
        return Some(
            Response { id, result: QueryResult::Success { data: QueryData::ShuttingDown } },
        );
    }
    match parse_query_data(s, d) {
        Some((data, pos)) => {
            if s.len() - pos == 2 && s[pos] == '}' && s[pos + 1] == '}' {
                proof {
                    assert(line@.subrange(d as int, pos as int) == se_query_data(data));
                }
                Some(Response { id, result: QueryResult::Success { data } })
            } else {
                None
            }
        },
        None => None,
    }
}

/// Read only the envelope's id from a response line, validating exactly
/// what the envelope validates and touching no payload.
pub fn read_envelope_id(line: &str) -> (r: Option<u64>)
    ensures
        match sp_resp_envelope(line@) {
            Option::Some(env) => r == Option::Some(
                match env {
                    RespEnvV::Failure { id, .. } => id,
                    RespEnvV::Pong { id } => id,
                    RespEnvV::ShuttingDown { id } => id,
                    RespEnvV::DataSuccess { id } => id,
                },
            ),
            Option::None => r is None,
        },
{
    let s_vec = to_chars(line);
    let s = s_vec.as_slice();
    let head: Vec<char> = vec!['{', '"', 'i', 'd', '"', ':'];
    proof {
        assert(head@ =~= tk_req_head());
    }
    if !lit_at(s, 0, head.as_slice()) {
        return None;
    }
    let (id, j) = match parse_u64(s, 6) {
        Some(p) => p,
        None => {
            return None;
        },
    };
    let result_tok: Vec<char> = vec![',', '"', 'r', 'e', 's', 'u', 'l', 't', '"', ':'];
    proof {
        assert(result_tok@ =~= tk_result());
    }
    if !lit_at(s, j, result_tok.as_slice()) {
        return None;
    }
    let k = j + 10;
    let err_tok: Vec<char> = vec![
        '{', '"', 's', 't', 'a', 't', 'u', 's', '"', ':', '"', 'e', 'r', 'r', 'o', 'r', '"', ',',
        '"', 'm', 'e', 's', 's', 'a', 'g', 'e', '"', ':',
    ];
    proof {
        assert(err_tok@ =~= tk_err_head());
    }
    if lit_at(s, k, err_tok.as_slice()) {
        proof {
            assert(k + 28 <= s@.len());
        }
        let (_msg, m) = match parse_str_lit(s, k + 28) {
            Some(p) => p,
            None => {
                return None;
            },
        };
        if s.len() - m == 2 && s[m] == '}' && s[m + 1] == '}' {
            return Some(id);
        }
        return None;
    }
    let succ_tok: Vec<char> = vec![
        '{', '"', 's', 't', 'a', 't', 'u', 's', '"', ':', '"', 's', 'u', 'c', 'c', 'e', 's', 's',
        '"', ',', '"', 'd', 'a', 't', 'a', '"', ':',
    ];
    proof {
        assert(succ_tok@ =~= tk_succ_head());
    }
    if !lit_at(s, k, succ_tok.as_slice()) {
        return None;
    }
    Some(id)
}

/// An encoded error response reads back as exactly its id and message, and
/// holds no unescaped newline.
pub proof fn lemma_error_response_round_trip(id: u64, msg: Seq<char>)
    ensures
        sp_resp_envelope(enc_error_response(id as int, msg)) == Option::Some(
            RespEnvV::Failure { id, message: msg },
        ),
        forall|k: int|
            0 <= k < enc_error_response(id as int, msg).len() ==> enc_error_response(
                id as int,
                msg,
            )[k] != '\n',
{
    let s = enc_error_response(id as int, msg);
    let num = dec_u64(id as int);
    let l = str_lit(msg);
    assert(s == tk_req_head() + num + tk_result() + tk_err_head() + l + seq!['}', '}']
        + Seq::<char>::empty()) by {
        assert(tk_req_head() + num + tk_result() + tk_err_head() + l + seq!['}', '}']
            + Seq::<char>::empty() =~= s);
    }
    lemma_concat7(
        tk_req_head(),
        num,
        tk_result(),
        tk_err_head(),
        l,
        seq!['}', '}'],
        Seq::<char>::empty(),
        s,
    );
    assert(occurs_at(s, tk_req_head(), 0));
    let j = 6 + num.len() as int;
    assert(s[j] == s.subrange(j, j + 10)[0]);
    assert(!is_dec_digit(','));
    lemma_sp_u64_at(s, 6, id as int);
    assert(occurs_at(s, tk_result(), j));
    let k = j + 10;
    assert(occurs_at(s, tk_err_head(), k));
    assert(!occurs_at(s, tk_succ_head(), k)) by {
        if occurs_at(s, tk_succ_head(), k) {
            assert(s.subrange(k, k + 27)[11] == tk_succ_head()[11]);
            assert(s.subrange(k, k + 28)[11] == tk_err_head()[11]);
        }
    }
    lemma_sp_str_lit_at(s, k + 28, msg);
    let m = k + 28 + l.len() as int;
    assert(s[m] == s.subrange(m, s.len() as int)[0]);
    assert(s[m + 1] == s.subrange(m, s.len() as int)[1]);
    assert(m + 2 == s.len());
    crate::codec_prim::lemma_str_lit_nl_free(msg);
    lemma_dec_u64_facts(id as int);
    assert forall|x: int| 0 <= x < s.len() implies s[x] != '\n' by {
        if x < 6 {
            assert(s[x] == tk_req_head()[x]);
        } else if x < j {
            assert(s[x] == s.subrange(6, j)[x - 6]);
            assert(is_dec_digit(num[x - 6]));
        } else if x < k {
            assert(s[x] == s.subrange(j, k)[x - j]);
        } else if x < k + 28 {
            assert(s[x] == s.subrange(k, k + 28)[x - k]);
        } else if x < m {
            assert(s[x] == s.subrange(k + 28, m)[x - (k + 28)]);
        } else {
            assert(s[x] == s.subrange(m, s.len() as int)[x - m]);
        }
    }
}

/// An encoded liveness reply reads back as exactly its id.
pub proof fn lemma_pong_response_round_trip(id: u64)
    ensures
        sp_resp_envelope(enc_pong_response(id as int)) == Option::Some(RespEnvV::Pong { id }),
{
    let s = enc_pong_response(id as int);
    let num = dec_u64(id as int);
    assert(s == tk_req_head() + num + tk_result() + tk_succ_head() + data_pong() + seq!['}', '}']
        + Seq::<char>::empty()) by {
        assert(tk_req_head() + num + tk_result() + tk_succ_head() + data_pong() + seq!['}', '}']
            + Seq::<char>::empty() =~= s);
    }
    lemma_concat7(
        tk_req_head(),
        num,
        tk_result(),
        tk_succ_head(),
        data_pong(),
        seq!['}', '}'],
        Seq::<char>::empty(),
        s,
    );
    assert(occurs_at(s, tk_req_head(), 0));
    let j = 6 + num.len() as int;
    assert(s[j] == s.subrange(j, j + 10)[0]);
    assert(!is_dec_digit(','));
    lemma_sp_u64_at(s, 6, id as int);
    assert(occurs_at(s, tk_result(), j));
    let k = j + 10;
    assert(occurs_at(s, tk_succ_head(), k));
    assert(!occurs_at(s, tk_err_head(), k)) by {
        if occurs_at(s, tk_err_head(), k) {
            assert(s.subrange(k, k + 28)[11] == tk_err_head()[11]);
            assert(s.subrange(k, k + 27)[11] == tk_succ_head()[11]);
        }
    }
    let d = k + 27;
    assert(occurs_at(s, data_pong(), d));
    assert(s[d + 15] == s.subrange(d + 15, s.len() as int)[0]);
    assert(s[d + 16] == s.subrange(d + 15, s.len() as int)[1]);
    assert(d + 17 == s.len());
}

/// An encoded shutdown acknowledgement reads back as exactly its id.
pub proof fn lemma_shutdown_response_round_trip(id: u64)
    ensures
        sp_resp_envelope(enc_shutdown_response(id as int)) == Option::Some(
            RespEnvV::ShuttingDown { id },
        ),
{
    let s = enc_shutdown_response(id as int);
    let num = dec_u64(id as int);
    assert(s == tk_req_head() + num + tk_result() + tk_succ_head() + data_shutting_down() + seq![
        '}',
        '}',
    ] + Seq::<char>::empty()) by {
        assert(tk_req_head() + num + tk_result() + tk_succ_head() + data_shutting_down() + seq![
            '}',
            '}',
        ] + Seq::<char>::empty() =~= s);
    }
    lemma_concat7(
        tk_req_head(),
        num,
        tk_result(),
        tk_succ_head(),
        data_shutting_down(),
        seq!['}', '}'],
        Seq::<char>::empty(),
        s,
    );
    assert(occurs_at(s, tk_req_head(), 0));
    let j = 6 + num.len() as int;
    assert(s[j] == s.subrange(j, j + 10)[0]);
    assert(!is_dec_digit(','));
    lemma_sp_u64_at(s, 6, id as int);
    assert(occurs_at(s, tk_result(), j));
    let k = j + 10;
    assert(occurs_at(s, tk_succ_head(), k));
    assert(!occurs_at(s, tk_err_head(), k)) by {
        if occurs_at(s, tk_err_head(), k) {
            assert(s.subrange(k, k + 28)[11] == tk_err_head()[11]);
            assert(s.subrange(k, k + 27)[11] == tk_succ_head()[11]);
        }
    }
    let d = k + 27;
    assert(occurs_at(s, data_shutting_down(), d));
    assert(!occurs_at(s, data_pong(), d)) by {
        if occurs_at(s, data_pong(), d) {
            assert(s.subrange(d, d + 15)[9] == data_pong()[9]);
            assert(s.subrange(d, d + 24)[9] == data_shutting_down()[9]);
        }
    }
    assert(s[d + 24] == s.subrange(d + 24, s.len() as int)[0]);
    assert(s[d + 25] == s.subrange(d + 24, s.len() as int)[1]);
    assert(d + 26 == s.len());
}

} // verus!
