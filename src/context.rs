//! The context request: its parameters decoded, with a fallback for each.

use vstd::prelude::*;
use crate::params::{
    build_default_sql, comma_list, decode_param, decoded_text, default_sql, int_or,
    normalize_transform, normalized_transform, parse_int_or, split_list,
};
use crate::meta::{stream_type_of, StreamType};
use crate::payload::{filters_view, is_json, payload_filters, payload_pivot, read_payload};
use crate::window::opt_view;

verus! {

/// The window size used where the request gives none, or one that is not an integer.
pub const DEFAULT_WINDOW_SIZE: i64 = 10;

/// The request's query parameters, as the transport delivered them.
pub struct ContextParams {
    /// The pivot timestamp, in microseconds.
    pub key: Option<String>,
    pub size: Option<String>,
    pub timeout: Option<String>,
    /// SQL in URL-safe base64.
    pub sql: Option<String>,
    /// A transform expression in URL-safe base64.
    pub query_fn: Option<String>,
    /// Comma-separated region names.
    pub regions: Option<String>,
    /// Comma-separated cluster names.
    pub clusters: Option<String>,
    /// The stream type's name.
    pub stream_type: Option<String>,
}

/// A decoded context request.
pub struct ContextRequest {
    pub org_id: String,
    pub stream_name: String,
    pub stream_type: StreamType,
    pub pivot: i64,
    pub size: i64,
    pub sql: String,
    pub transform: Option<String>,
    pub regions: Vec<String>,
    pub clusters: Vec<String>,
    pub timeout: i64,
    pub user_id: Option<String>,
    /// Field filters taken from the payload, in allow-list order.
    pub filters: Vec<(String, String)>,
}

/// The SQL a request asks for: its decoded `sql` parameter, else the default.
pub open spec fn request_sql(param: Option<Seq<char>>, stream: Seq<char>) -> Seq<char> {
    match param {
        Some(p) => match decoded_text(p) {
            Some(t) => t,
            None => default_sql(stream),
        },
        None => default_sql(stream),
    }
}

/// The transform a request asks for: its decoded `query_fn`, normalized.
pub open spec fn request_transform(param: Option<Seq<char>>) -> Option<Seq<char>> {
    match param {
        Some(p) => match decoded_text(p) {
            Some(t) => Some(normalized_transform(t)),
            None => None,
        },
        None => None,
    }
}

/// A comma-separated list parameter; empty when absent.
pub open spec fn request_list(param: Option<Seq<char>>) -> Seq<Seq<char>> {
    match param {
        Some(p) => comma_list(p),
        None => Seq::empty(),
    }
}

fn decode_sql(param: &Option<String>, stream: &String) -> (r: String)
    ensures
        r@ == request_sql(opt_view(*param), stream@),
{
    match param {
        Some(p) => match decode_param(p.as_str()) {
            Some(t) => t,
            None => build_default_sql(stream.as_str()),
        },
        None => build_default_sql(stream.as_str()),
    }
}

fn decode_transform(param: &Option<String>) -> (r: Option<String>)
    ensures
        opt_view(r) == request_transform(opt_view(*param)),
{
    match param {
        Some(p) => match decode_param(p.as_str()) {
            Some(t) => Some(normalize_transform(t)),
            None => None,
        },
        None => None,
    }
}

fn decode_list(param: &Option<String>) -> (r: Vec<String>)
    ensures
        r.deep_view() == request_list(opt_view(*param)),
{
    match param {
        Some(p) => {
            let v = split_list(p.as_str());
            proof {
                assert(v.deep_view() =~= v@.map_values(|x: String| x@));
            }
            v
        },
        None => {
            let v: Vec<String> = Vec::new();
            proof {
                assert(v.deep_view() =~= Seq::empty());
            }
            v
        },
    }
}

impl ContextRequest {
    /// Decodes a request. Nothing here fails: each parameter that is absent or does
    /// not decode takes its default. `fields` is the allow-list of filter fields read
    /// from the payload; a payload that is not JSON gives no filters.
    pub fn build(
        org_id: String,
        stream_name: String,
        params: &ContextParams,
        payload: &Option<Vec<u8>>,
        fields: &Vec<String>,
        user_id: Option<String>,
    ) -> (r: ContextRequest)
        ensures
            r.org_id == org_id,
            r.stream_name == stream_name,
            r.user_id == user_id,
            r.size == int_or(opt_view(params.size), DEFAULT_WINDOW_SIZE),
            r.timeout == int_or(opt_view(params.timeout), 0),
            r.sql@ == request_sql(opt_view(params.sql), stream_name@),
            opt_view(r.transform) == request_transform(opt_view(params.query_fn)),
            r.regions.deep_view() == request_list(opt_view(params.regions)),
            r.clusters.deep_view() == request_list(opt_view(params.clusters)),
            r.stream_type == stream_type_of(opt_view(params.stream_type)),
            match payload {
                None => r.pivot == int_or(opt_view(params.key), 0) && r.filters@.len() == 0,
                Some(b) => if is_json(b@) {
                    &&& r.pivot == payload_pivot(b@, int_or(opt_view(params.key), 0))
                    &&& filters_view(r.filters@) == payload_filters(b@, fields.deep_view())
                } else {
                    r.pivot == int_or(opt_view(params.key), 0) && r.filters@.len() == 0
                },
            },
    {
        let key = parse_int_or(&params.key, 0);
        let (pivot, filters) = match payload {
            Some(b) => read_payload(b.as_slice(), fields, key),
            None => (key, Vec::new()),
        };
        let sql = decode_sql(&params.sql, &stream_name);
        ContextRequest {
            org_id,
            stream_name,
            stream_type: StreamType::from_param(&params.stream_type),
            pivot,
            size: parse_int_or(&params.size, DEFAULT_WINDOW_SIZE),
            sql,
            transform: decode_transform(&params.query_fn),
            regions: decode_list(&params.regions),
            clusters: decode_list(&params.clusters),
            timeout: parse_int_or(&params.timeout, 0),
            user_id,
            filters,
        }
    }

    /// Whether the SQL must be merged with the payload's filters before dispatch.
    pub fn needs_filter_merge(&self) -> (r: bool)
        ensures
            r == (self.filters@.len() > 0),
    {
        self.filters.len() > 0
    }

    /// Takes the outcome of AND-merging the filters into the SQL: the merged text
    /// replaces the SQL; a failure fails the request with its message.
    pub fn with_merged_filters(self, merged: Result<String, String>) -> (r: Result<
        ContextRequest,
        String,
    >)
        ensures
            match merged {
                Ok(sql) => r matches Ok(req) && req == (ContextRequest { sql, ..self }),
                Err(e) => r == Err::<ContextRequest, String>(e),
            },
    {
        match merged {
            Ok(sql) => Ok(ContextRequest { sql, ..self }),
            Err(e) => Err(e),
        }
    }
}

} // verus!
