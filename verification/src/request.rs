//! Reading the incoming request: whose registration it asks for.

use vstd::prelude::*;
use lambda_http::RequestExt;
use crate::text::option_text;

verus! {

/// `http::Request`, as `lambda_http` hands it to a handler. Nothing is known
/// of what a request holds but through [`request_query`].
#[verifier::external_type_specification]
#[verifier::external_body]
#[verifier::reject_recursive_types(T)]
pub struct ExRequest<T>(lambda_http::http::Request<T>);

/// `lambda_http::Body`, the body of such a request. No handler reads it.
#[verifier::external_type_specification]
#[verifier::external_body]
pub struct ExBody(lambda_http::Body);

/// The query string parameters of a request, as its `query_string_parameters()`
/// holds them: each name that has values, with its values in the order in
/// which they were given.
pub uninterp spec fn request_query(event: lambda_http::Request) -> Map<Seq<char>, Seq<Seq<char>>>;

/// The first value that `query` holds for `name`, if it holds one.
pub open spec fn first_value(query: Map<Seq<char>, Seq<Seq<char>>>, name: Seq<char>) -> Option<
    Seq<char>,
> {
    if query.contains_key(name) && query[name].len() > 0 {
        Some(query[name][0])
    } else {
        None
    }
}

/// The query string parameter that names the user.
pub open spec fn user_id_parameter() -> Seq<char> {
    "user_id"@
}

/// The id under which a request without the parameter is registered.
pub open spec fn unknown_user() -> Seq<char> {
    "unknown"@
}

/// The id that a request is registered under: the value of its parameter,
/// exactly as given, or [`unknown_user`] where it has none.
pub open spec fn resolved_user_id(parameter: Option<Seq<char>>) -> Seq<char> {
    match parameter {
        Some(value) => value,
        None => unknown_user(),
    }
}

/// The id that `event` is registered under.
pub open spec fn request_user_id(event: lambda_http::Request) -> Seq<char> {
    resolved_user_id(first_value(request_query(event), user_id_parameter()))
}

/// The first value of the query string parameter `name`, from
/// `RequestExt::query_string_parameters` and `QueryMap::first` of `lambda_http`.
///
/// Trusted, not proved: the result is the first of the values that the
/// request's query string holds under `name`, unchanged, and `None` where it
/// holds no value under that name.
#[verifier::external_body]
pub(crate) fn first_query_value(event: &lambda_http::Request, name: &str) -> (value: Option<String>)
    ensures
        option_text(value) == first_value(request_query(*event), name@),
{
    event.query_string_parameters().first(name).map(String::from)
}

/// The id for a given value of the user parameter; `None` stands for a request
/// without it. A value is taken as it is: empty, long or odd, it is the id.
pub fn resolve_user_id(parameter: Option<String>) -> (user_id: String)
    ensures
        user_id@ == resolved_user_id(option_text(parameter)),
{
    match parameter {
        Some(value) => value,
        None => "unknown".to_string(),
    }
}

/// The id that `event` is registered under.
pub fn user_id_of(event: &lambda_http::Request) -> (user_id: String)
    ensures
        user_id@ == request_user_id(*event),
{
    resolve_user_id(first_query_value(event, "user_id"))
}

} // verus!
