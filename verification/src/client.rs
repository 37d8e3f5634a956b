//! The client-side protocol rules: request-id generation, response
//! correlation, and the typed accessor for each query kind.
//!
//! A session is exclusively owned by one call path; ids grow by one per
//! request, so no two outstanding requests of a session share an id, and a
//! response naming any other id is rejected as a correlation error.

use vstd::prelude::*;
use crate::codec_data::se_query_data;
use crate::codec_resp::{decode_response, sp_resp_envelope, RespEnvV};
use crate::protocol::{
    InherentImplDetails, ItemInfo, LayoutInfo, QueryData, QueryResult, Request, Query,
    TraitDetails, TraitImplDetails, TraitInfo, TypeDetails, TypeSummary, FieldInfo,
};

verus! {

/// Errors of the client-side protocol.
pub enum Error {
    /// The transport could not be reached or failed mid-call.
    ConnectionFailed(String),
    /// The peer's line could not be read as a response.
    SerializationError(String),
    /// The daemon answered with a typed failure.
    DaemonError(String),
    /// The response names a different request than the one outstanding.
    ResponseMismatch { expected: u64, got: u64 },
    /// No daemon is listening.
    DaemonNotRunning,
    /// The daemon binary could not be located, so nothing was spawned and
    /// nothing is polled.
    DaemonBinaryNotFound,
    /// The response was well-formed but of the wrong shape for the query.
    UnexpectedResponse,
    /// The daemon could not be started.
    DaemonStartFailed(String),
    /// The daemon did not come up within the waiting window.
    DaemonStartTimeout,
}

/// One client's protocol state: the next request id to hand out.
pub struct ClientSession {
    pub next_id: u64,
}

impl ClientSession {
    /// A fresh session; ids start at 1.
    pub fn new() -> (r: Self)
        ensures
            r.next_id == 1,
    {
        ClientSession { next_id: 1 }
    }

    /// Build the next request: it takes the session's current id, and the
    /// session moves on, so ids are unique per session.
    pub fn make_request(&mut self, crate_name: &String, query: Query) -> (r: Request)
        requires
            old(self).next_id < u64::MAX,
        ensures
            r.id == old(self).next_id,
            final(self).next_id == old(self).next_id + 1,
            r.crate_name@ == crate_name@,
            r.query == query,
    {
        let id = self.next_id;
        self.next_id = self.next_id + 1;
        Request { id, crate_name: crate_name.clone(), query }
    }
}

/// The id a response line's envelope carries, read before any payload.
pub fn response_envelope_id(line: &str) -> (r: Option<u64>)
    ensures
        match sp_resp_envelope(line@) {
            Option::Some(env) => r == Option::Some(
                match env {
                    RespEnvV::Failure { id, .. } => id,
                    RespEnvV::Pong { id } => id,
                    RespEnvV::ShuttingDown { id } => id,
                    RespEnvV::DataSuccess { id } => id,
                },
            ),
            Option::None => r is None,
        },
{
    crate::codec_resp::read_envelope_id(line)
}

/// Accept one response line for the outstanding request `expected_id`: a
/// response carrying any other id is a correlation error, even one that
/// arrives first and whatever its payload; a typed failure becomes a
/// daemon error; an unreadable line is a protocol error.
pub fn take_response(expected_id: u64, line: &str) -> (r: Result<QueryData, Error>)
    ensures
        match sp_resp_envelope(line@) {
            Option::Some(env) => {
                let got = match env {
                    RespEnvV::Failure { id, .. } => id,
                    RespEnvV::Pong { id } => id,
                    RespEnvV::ShuttingDown { id } => id,
                    RespEnvV::DataSuccess { id } => id,
                };
                if got != expected_id {
                    r matches Err(Error::ResponseMismatch { expected, got: g }) && expected
                        == expected_id && g == got
                } else {
                    match env {
                        RespEnvV::Failure { id, message } => r matches Err(
                            Error::DaemonError(m),
                        ) && m@ == message,
                        RespEnvV::Pong { .. } => r == Result::<QueryData, Error>::Ok(
                            QueryData::Pong,
                        ),
                        RespEnvV::ShuttingDown { .. } => r == Result::<QueryData, Error>::Ok(
                            QueryData::ShuttingDown,
                        ),
                        RespEnvV::DataSuccess { .. } => match r {
                            Result::Ok(data) => exists|a: int, b: int|
                                0 <= a <= b <= line@.len() && #[trigger] line@.subrange(a, b)
                                    == se_query_data(data),
                            Result::Err(Error::SerializationError(_)) => true,
                            _ => false,
                        },
                    }
                }
            },
            Option::None => r matches Err(Error::SerializationError(_)),
        },
{
    let got = match response_envelope_id(line) {
        Some(g) => g,
        None => {
            return Err(
                Error::SerializationError(String::from_str("unreadable response line")),
            );
        },
    };
    if got != expected_id {
        return Err(Error::ResponseMismatch { expected: expected_id, got });
    }
    match decode_response(line) {
        Some(resp) => {
            match resp.result {
                QueryResult::Success { data } => Ok(data),
                QueryResult::Error { message } => Err(Error::DaemonError(message)),
            }
        },
        None => Err(
            Error::SerializationError(String::from_str("unreadable response line")),
        ),
    }
}

/// The items of a listing reply.
pub fn expect_items(data: QueryData) -> (r: Result<Vec<ItemInfo>, Error>)
    ensures
        match data {
            QueryData::Items { items } => r == Result::<Vec<ItemInfo>, Error>::Ok(items),
            _ => r matches Err(Error::UnexpectedResponse),
        },
{
    match data {
        QueryData::Items { items } => Ok(items),
        _ => Err(Error::UnexpectedResponse),
    }
}

/// The details of a type reply.
pub fn expect_type_info(data: QueryData) -> (r: Result<TypeDetails, Error>)
    ensures
        match data {
            QueryData::TypeInfo(td) => r == Result::<TypeDetails, Error>::Ok(td),
            _ => r matches Err(Error::UnexpectedResponse),
        },
{
    match data {
        QueryData::TypeInfo(td) => Ok(td),
        _ => Err(Error::UnexpectedResponse),
    }
}

/// The impl blocks of a trait-impl reply.
pub fn expect_trait_impls(data: QueryData) -> (r: Result<Vec<TraitImplDetails>, Error>)
    ensures
        match data {
            QueryData::TraitImpls { impls } => r == Result::<Vec<TraitImplDetails>, Error>::Ok(
                impls,
            ),
            _ => r matches Err(Error::UnexpectedResponse),
        },
{
    match data {
        QueryData::TraitImpls { impls } => Ok(impls),
        _ => Err(Error::UnexpectedResponse),
    }
}

/// The impl blocks of an inherent-impl reply.
pub fn expect_inherent_impls(data: QueryData) -> (r: Result<Vec<InherentImplDetails>, Error>)
    ensures
        match data {
            QueryData::InherentImpls { impls } => r == Result::<
                Vec<InherentImplDetails>,
                Error,
            >::Ok(impls),
            _ => r matches Err(Error::UnexpectedResponse),
        },
{
    match data {
        QueryData::InherentImpls { impls } => Ok(impls),
        _ => Err(Error::UnexpectedResponse),
    }
}

/// The fields of a fields reply.
pub fn expect_fields(data: QueryData) -> (r: Result<Vec<FieldInfo>, Error>)
    ensures
        match data {
            QueryData::Fields { fields } => r == Result::<Vec<FieldInfo>, Error>::Ok(fields),
            _ => r matches Err(Error::UnexpectedResponse),
        },
{
    match data {
        QueryData::Fields { fields } => Ok(fields),
        _ => Err(Error::UnexpectedResponse),
    }
}

/// The layout of a layout reply.
pub fn expect_layout(data: QueryData) -> (r: Result<LayoutInfo, Error>)
    ensures
        match data {
            QueryData::Layout(l) => r == Result::<LayoutInfo, Error>::Ok(l),
            _ => r matches Err(Error::UnexpectedResponse),
        },
{
    match data {
        QueryData::Layout(l) => Ok(l),
        _ => Err(Error::UnexpectedResponse),
    }
}

/// The summaries of a trait listing reply.
pub fn expect_traits(data: QueryData) -> (r: Result<Vec<TraitInfo>, Error>)
    ensures
        match data {
            QueryData::Traits { traits } => r == Result::<Vec<TraitInfo>, Error>::Ok(traits),
            _ => r matches Err(Error::UnexpectedResponse),
        },
{
    match data {
        QueryData::Traits { traits } => Ok(traits),
        _ => Err(Error::UnexpectedResponse),
    }
}

/// The details of a trait reply.
pub fn expect_trait_details(data: QueryData) -> (r: Result<TraitDetails, Error>)
    ensures
        match data {
            QueryData::TraitDetails(td) => r == Result::<TraitDetails, Error>::Ok(td),
            _ => r matches Err(Error::UnexpectedResponse),
        },
{
    match data {
        QueryData::TraitDetails(td) => Ok(td),
        _ => Err(Error::UnexpectedResponse),
    }
}

/// The summaries of a pattern-search reply.
pub fn expect_types(data: QueryData) -> (r: Result<Vec<TypeSummary>, Error>)
    ensures
        match data {
            QueryData::Types { types } => r == Result::<Vec<TypeSummary>, Error>::Ok(types),
            _ => r matches Err(Error::UnexpectedResponse),
        },
{
    match data {
        QueryData::Types { types } => Ok(types),
        _ => Err(Error::UnexpectedResponse),
    }
}

/// The pieces of an alias reply: the declared path, the resolved type, and
/// the chain.
pub fn expect_resolved(data: QueryData) -> (r: Result<(String, String, Vec<String>), Error>)
    ensures
        match data {
            QueryData::ResolvedType { original, resolved, chain } => r == Result::<
                (String, String, Vec<String>),
                Error,
            >::Ok((original, resolved, chain)),
            _ => r matches Err(Error::UnexpectedResponse),
        },
{
    match data {
        QueryData::ResolvedType { original, resolved, chain } => Ok((original, resolved, chain)),
        _ => Err(Error::UnexpectedResponse),
    }
}

/// The verdict of an implements-check reply.
pub fn expect_impl_check(data: QueryData) -> (r: Result<
    (bool, Option<TraitImplDetails>),
    Error,
>)
    ensures
        match data {
            QueryData::ImplCheck { implements, impl_info } => r == Result::<
                (bool, Option<TraitImplDetails>),
                Error,
            >::Ok((implements, impl_info)),
            _ => r matches Err(Error::UnexpectedResponse),
        },
{
    match data {
        QueryData::ImplCheck { implements, impl_info } => Ok((implements, impl_info)),
        _ => Err(Error::UnexpectedResponse),
    }
}

/// The summaries of an implementors reply.
pub fn expect_implementors(data: QueryData) -> (r: Result<Vec<TypeSummary>, Error>)
    ensures
        match data {
            QueryData::Implementors { types } => r == Result::<Vec<TypeSummary>, Error>::Ok(
                types,
            ),
            _ => r matches Err(Error::UnexpectedResponse),
        },
{
    match data {
        QueryData::Implementors { types } => Ok(types),
        _ => Err(Error::UnexpectedResponse),
    }
}

/// Whether the reply acknowledges liveness.
pub fn expect_pong(data: QueryData) -> (r: Result<bool, Error>)
    ensures
        match data {
            QueryData::Pong => r == Result::<bool, Error>::Ok(true),
            _ => r matches Err(Error::UnexpectedResponse),
        },
{
    match data {
        QueryData::Pong => Ok(true),
        _ => Err(Error::UnexpectedResponse),
    }
}

/// Whether the reply acknowledges shutdown.
pub fn expect_shutting_down(data: QueryData) -> (r: Result<(), Error>)
    ensures
        match data {
            QueryData::ShuttingDown => r is Ok,
            _ => r matches Err(Error::UnexpectedResponse),
        },
{
    match data {
        QueryData::ShuttingDown => Ok(()),
        _ => Err(Error::UnexpectedResponse),
    }
}

} // verus!
