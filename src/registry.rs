use vstd::prelude::*;
use crate::codec::request_body;
use crate::language_relations::LANGUAGE_RELATIONS_QUERY;
use crate::query::{build_request, request_matches, HttpRequest, TransportConfig};

verus! {

/// The queries this client knows, each with its fixed text.
#[derive(Debug, Clone, Copy, PartialEq, Eq, Structural)]
pub enum QueryId {
    LanguageRelations,
}

/// The fixed text of a query.
pub open spec fn query_text_of(id: QueryId) -> Seq<char> {
    match id {
        QueryId::LanguageRelations => LANGUAGE_RELATIONS_QUERY@,
    }
}

/// The fixed text of a query.
pub fn query_text(id: QueryId) -> (r: &'static str)
    ensures
        r@ == query_text_of(id),
{
    match id {
        QueryId::LanguageRelations => LANGUAGE_RELATIONS_QUERY,
    }
}

/// Builds the request of one call of the query `id` with the JSON text of
/// its variables.
pub fn prepare(config: &TransportConfig, id: QueryId, variables: &str) -> (r: HttpRequest)
    ensures
        request_matches(r, *config, request_body(query_text_of(id), variables@)),
{
    build_request(config, query_text(id), variables)
}

} // verus!
