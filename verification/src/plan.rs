//! The verb, path, query and body of every remote operation.
//!
//! Each function here builds the full description of one HTTP request; an
//! unverified transport executes it and hands the decoded JSON body back to
//! the entity and envelope decoders. The clone operations go to
//! `/templates/...` without the `/verify` prefix the other operations
//! carry: that asymmetry is what the remote service actually answers to
//! and is preserved deliberately.

use vstd::prelude::*;

use crate::json::JsonValue;
use crate::requests::{
    entry_views, spec_create_pairs, spec_query_params, spec_update_pairs, CreateTemplateRequest,
    ListTemplatesOptions, UpdateTemplateRequest,
};

verus! {

/// The HTTP verb of an operation.
#[derive(Debug, Clone, Copy, PartialEq, Eq, Structural)]
pub enum Verb {
    Get,
    Post,
    Patch,
    Delete,
}

/// One remote request, ready for a transport to execute: the verb, the
/// relative path, the query pairs (URL encoding is the transport's
/// concern) and the JSON body, `None` for bodiless verbs and
/// `JsonValue::Null` for actions posted with an empty body.
#[derive(Debug)]
pub struct RequestPlan {
    pub verb: Verb,
    pub path: String,
    pub query: Vec<(String, String)>,
    pub body: Option<JsonValue>,
}

/// The collection path.
pub open spec fn templates_path() -> Seq<char> {
    "/verify/templates"@
}

/// The path of one template.
pub open spec fn template_path(id: Seq<char>) -> Seq<char> {
    "/verify/templates/"@ + id
}

/// The path of one template's publish action.
pub open spec fn publish_path(id: Seq<char>) -> Seq<char> {
    "/verify/templates/"@ + id + "/publish"@
}

/// The path of one template's unpublish action.
pub open spec fn unpublish_path(id: Seq<char>) -> Seq<char> {
    "/verify/templates/"@ + id + "/unpublish"@
}

/// The path of one template's clone action. No `/verify` prefix: the
/// remote service exposes clone under a different root.
pub open spec fn clone_path(id: Seq<char>) -> Seq<char> {
    "/templates/"@ + id + "/clone"@
}

/// An empty query.
fn no_query() -> (r: Vec<(String, String)>)
    ensures
        r.deep_view() == Seq::<(Seq<char>, Seq<char>)>::empty(),
{
    let r: Vec<(String, String)> = Vec::new();
    proof {
        assert(r.deep_view() =~= Seq::<(Seq<char>, Seq<char>)>::empty());
    }
    r
}

/// GET `/verify/templates` with the options' query pairs.
pub fn list(options: &ListTemplatesOptions) -> (r: RequestPlan)
    ensures
        r.verb == Verb::Get,
        r.path@ == templates_path(),
        r.query.deep_view() == spec_query_params(*options),
        r.body is None,
{
    RequestPlan {
        verb: Verb::Get,
        path: String::from_str("/verify/templates"),
        query: options.to_query_params(),
        body: None,
    }
}

/// GET `/verify/templates/{id}`.
pub fn get(id: &str) -> (r: RequestPlan)
    ensures
        r.verb == Verb::Get,
        r.path@ == template_path(id@),
        r.query.deep_view() == Seq::<(Seq<char>, Seq<char>)>::empty(),
        r.body is None,
{
    RequestPlan {
        verb: Verb::Get,
        path: String::from_str("/verify/templates/").concat(id),
        query: no_query(),
        body: None,
    }
}

/// POST `/verify/templates` with the create payload.
pub fn create(request: &CreateTemplateRequest) -> (r: RequestPlan)
    ensures
        r.verb == Verb::Post,
        r.path@ == templates_path(),
        r.query.deep_view() == Seq::<(Seq<char>, Seq<char>)>::empty(),
        (r.body matches Some(JsonValue::Obj(es)) && entry_views(es@) == spec_create_pairs(
            *request,
        )),
{
    RequestPlan {
        verb: Verb::Post,
        path: String::from_str("/verify/templates"),
        query: no_query(),
        body: Some(request.to_json()),
    }
}

/// PATCH `/verify/templates/{id}` with the update payload.
pub fn update(id: &str, request: &UpdateTemplateRequest) -> (r: RequestPlan)
    ensures
        r.verb == Verb::Patch,
        r.path@ == template_path(id@),
        r.query.deep_view() == Seq::<(Seq<char>, Seq<char>)>::empty(),
        (r.body matches Some(JsonValue::Obj(es)) && entry_views(es@) == spec_update_pairs(
            *request,
        )),
{
    RequestPlan {
        verb: Verb::Patch,
        path: String::from_str("/verify/templates/").concat(id),
        query: no_query(),
        body: Some(request.to_json()),
    }
}

/// DELETE `/verify/templates/{id}`.
pub fn delete(id: &str) -> (r: RequestPlan)
    ensures
        r.verb == Verb::Delete,
        r.path@ == template_path(id@),
        r.query.deep_view() == Seq::<(Seq<char>, Seq<char>)>::empty(),
        r.body is None,
{
    RequestPlan {
        verb: Verb::Delete,
        path: String::from_str("/verify/templates/").concat(id),
        query: no_query(),
        body: None,
    }
}

/// POST `/verify/templates/{id}/publish` with an empty body.
pub fn publish(id: &str) -> (r: RequestPlan)
    ensures
        r.verb == Verb::Post,
        r.path@ == publish_path(id@),
        r.query.deep_view() == Seq::<(Seq<char>, Seq<char>)>::empty(),
        r.body == Some(JsonValue::Null),
{
    RequestPlan {
        verb: Verb::Post,
        path: String::from_str("/verify/templates/").concat(id).concat("/publish"),
        query: no_query(),
        body: Some(JsonValue::Null),
    }
}

/// POST `/verify/templates/{id}/unpublish` with an empty body.
pub fn unpublish(id: &str) -> (r: RequestPlan)
    ensures
        r.verb == Verb::Post,
        r.path@ == unpublish_path(id@),
        r.query.deep_view() == Seq::<(Seq<char>, Seq<char>)>::empty(),
        r.body == Some(JsonValue::Null),
{
    RequestPlan {
        verb: Verb::Post,
        path: String::from_str("/verify/templates/").concat(id).concat("/unpublish"),
        query: no_query(),
        body: Some(JsonValue::Null),
    }
}

/// POST `/templates/{id}/clone` with an empty body. The server names the
/// copy itself.
pub fn clone_template(id: &str) -> (r: RequestPlan)
    ensures
        r.verb == Verb::Post,
        r.path@ == clone_path(id@),
        r.query.deep_view() == Seq::<(Seq<char>, Seq<char>)>::empty(),
        r.body == Some(JsonValue::Null),
{
    RequestPlan {
        verb: Verb::Post,
        path: String::from_str("/templates/").concat(id).concat("/clone"),
        query: no_query(),
        body: Some(JsonValue::Null),
    }
}

/// POST `/templates/{id}/clone` with the body `{"name": name}`.
pub fn clone_with_name(id: &str, name: &str) -> (r: RequestPlan)
    ensures
        r.verb == Verb::Post,
        r.path@ == clone_path(id@),
        r.query.deep_view() == Seq::<(Seq<char>, Seq<char>)>::empty(),
        (r.body matches Some(JsonValue::Obj(es)) && es@.len() == 1 && es@[0].0@ == "name"@ && (
        es@[0].1 matches JsonValue::Str(n) && n@ == name@)),
{
    let mut entries: Vec<(String, JsonValue)> = Vec::new();
    entries.push((String::from_str("name"), JsonValue::Str(String::from_str(name))));
    RequestPlan {
        verb: Verb::Post,
        path: String::from_str("/templates/").concat(id).concat("/clone"),
        query: no_query(),
        body: Some(JsonValue::Obj(entries)),
    }
}

} // verus!
