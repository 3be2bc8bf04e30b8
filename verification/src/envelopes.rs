//! Inbound response envelopes: template collections, pagination metadata,
//! and the delete acknowledgement.

use vstd::prelude::*;

use crate::json::{lookup, obj_get, obj_get_with_alias, JsonValue};
use crate::template::{
    spec_bool_default, spec_decode_template, DecodeError, Field, Template, TemplateModel,
};

verus! {

/// Pagination metadata of a list response. `limit` defaults to 0 and
/// `has_more` to `false` when absent; `hasMore` is a legacy alias.
#[derive(Debug, Clone, Copy, PartialEq, Eq, Structural)]
pub struct TemplatePagination {
    pub limit: i32,
    pub has_more: bool,
}

/// A page of templates plus optional pagination metadata. A response
/// without a `pagination` key means "no pagination metadata available".
#[derive(Debug, Clone)]
pub struct TemplateList {
    pub templates: Vec<Template>,
    pub pagination: Option<TemplatePagination>,
}

/// The mathematical shape of a list response.
pub ghost struct TemplateListModel {
    pub templates: Seq<TemplateModel>,
    pub pagination: Option<TemplatePagination>,
}

impl View for TemplateList {
    type V = TemplateListModel;

    open spec fn view(&self) -> TemplateListModel {
        TemplateListModel {
            templates: self.templates.deep_view(),
            pagination: self.pagination,
        }
    }
}

/// The delete acknowledgement: `success` is required, `message` optional
/// and purely informational.
#[derive(Debug, Clone)]
pub struct DeleteTemplateResponse {
    pub success: bool,
    pub message: Option<String>,
}

/// The mathematical shape of a delete acknowledgement.
pub ghost struct DeleteResponseModel {
    pub success: bool,
    pub message: Option<Seq<char>>,
}

impl View for DeleteTemplateResponse {
    type V = DeleteResponseModel;

    open spec fn view(&self) -> DeleteResponseModel {
        DeleteResponseModel {
            success: self.success,
            message: match self.message {
                Some(m) => Some(m@),
                None => None,
            },
        }
    }
}

/// Decoding of every element of a JSON array as a template; the first
/// failing element decides the error.
pub open spec fn spec_decode_templates(items: Seq<JsonValue>) -> Result<
    Seq<TemplateModel>,
    DecodeError,
>
    decreases items.len(),
{
    if items.len() == 0 {
        Ok(Seq::empty())
    } else {
        match spec_decode_templates(items.drop_last()) {
            Err(e) => Err(e),
            Ok(ts) => match spec_decode_template(items.last()) {
                Err(e) => Err(e),
                Ok(t) => Ok(ts.push(t)),
            },
        }
    }
}

/// The pagination fields of an object: `limit` defaults to 0, `has_more`
/// to `false` (alias `hasMore`); a `limit` outside `i32` is an error.
pub open spec fn spec_pagination_fields(es: Seq<(String, JsonValue)>) -> Result<
    TemplatePagination,
    DecodeError,
> {
    match (match lookup(es, "limit"@) {
        None => Ok(0i32),
        Some(JsonValue::Int(n)) => if i32::MIN as i64 <= n && n <= i32::MAX as i64 {
            Ok(n as i32)
        } else {
            Err(DecodeError::WrongType(Field::Limit))
        },
        Some(_) => Err(DecodeError::WrongType(Field::Limit)),
    }) {
        Err(e) => Err(e),
        Ok(limit) => match spec_bool_default(es, "has_more"@, "hasMore"@, Field::HasMore) {
            Err(e) => Err(e),
            Ok(has_more) => Ok(TemplatePagination { limit, has_more }),
        },
    }
}

/// The optional `pagination` field: absent or `null` means none.
pub open spec fn spec_pagination_field(es: Seq<(String, JsonValue)>) -> Result<
    Option<TemplatePagination>,
    DecodeError,
> {
    match lookup(es, "pagination"@) {
        None => Ok(None),
        Some(JsonValue::Null) => Ok(None),
        Some(JsonValue::Obj(pes)) => match spec_pagination_fields(pes@) {
            Err(e) => Err(e),
            Ok(p) => Ok(Some(p)),
        },
        Some(_) => Err(DecodeError::WrongType(Field::Pagination)),
    }
}

/// What decoding a list response yields: the `templates` array is
/// required; `pagination` is optional.
pub open spec fn spec_decode_template_list(v: JsonValue) -> Result<TemplateListModel, DecodeError> {
    match v {
        JsonValue::Obj(entries) => match lookup(entries@, "templates"@) {
            None => Err(DecodeError::MissingField(Field::Templates)),
            Some(JsonValue::Arr(items)) => match spec_decode_templates(items@) {
                Err(e) => Err(e),
                Ok(ts) => match spec_pagination_field(entries@) {
                    Err(e) => Err(e),
                    Ok(p) => Ok(TemplateListModel { templates: ts, pagination: p }),
                },
            },
            Some(_) => Err(DecodeError::WrongType(Field::Templates)),
        },
        _ => Err(DecodeError::NotAnObject),
    }
}

/// What decoding a delete acknowledgement yields: `success` is required
/// and boolean; `message` is an optional string.
pub open spec fn spec_decode_delete_response(v: JsonValue) -> Result<
    DeleteResponseModel,
    DecodeError,
> {
    match v {
        JsonValue::Obj(entries) => match lookup(entries@, "success"@) {
            None => Err(DecodeError::MissingField(Field::Success)),
            Some(JsonValue::Bool(success)) => match lookup(entries@, "message"@) {
                None => Ok(DeleteResponseModel { success, message: None }),
                Some(JsonValue::Null) => Ok(DeleteResponseModel { success, message: None }),
                Some(JsonValue::Str(m)) => Ok(
                    DeleteResponseModel { success, message: Some(m@) },
                ),
                Some(_) => Err(DecodeError::WrongType(Field::Message)),
            },
            Some(_) => Err(DecodeError::WrongType(Field::Success)),
        },
        _ => Err(DecodeError::NotAnObject),
    }
}

/// An element that fails to decode makes the whole array fail with that
/// element's error, provided every earlier element decodes.
proof fn lemma_decode_templates_err(items: Seq<JsonValue>, i: int, e: DecodeError)
    requires
        0 <= i < items.len(),
        spec_decode_templates(items.take(i)) is Ok,
        spec_decode_template(items[i]) == Err::<TemplateModel, DecodeError>(e),
    ensures
        spec_decode_templates(items) == Err::<Seq<TemplateModel>, DecodeError>(e),
    decreases items.len(),
{
    if i == items.len() - 1 {
        assert(items.drop_last() =~= items.take(i));
    } else {
        assert(items.drop_last().take(i) =~= items.take(i));
        assert(items.drop_last()[i] == items[i]);
        lemma_decode_templates_err(items.drop_last(), i, e);
    }
}

/// Decodes every element of a JSON array as a template.
fn decode_templates(items: &Vec<JsonValue>) -> (r: Result<Vec<Template>, DecodeError>)
    ensures
        match r {
            Ok(ts) => spec_decode_templates(items@) == Ok::<Seq<TemplateModel>, DecodeError>(
                ts.deep_view(),
            ),
            Err(e) => spec_decode_templates(items@) == Err::<Seq<TemplateModel>, DecodeError>(e),
        },
{
    let n: usize = items.len();
    let mut acc: Vec<Template> = Vec::new();
    let mut i: usize = 0;
    proof {
        assert(items@.take(0) =~= Seq::<JsonValue>::empty());
        assert(acc.deep_view() =~= Seq::<TemplateModel>::empty());
    }
    while i < n
        invariant
            n == items@.len(),
            i <= n,
            spec_decode_templates(items@.take(i as int)) == Ok::<Seq<TemplateModel>, DecodeError>(
                acc.deep_view(),
            ),
        decreases n - i,
    {
        match Template::from_json(&items[i]) {
            Ok(t) => {
                let ghost old_acc = acc;
                let ghost tm = t@;
                acc.push(t);
                proof {
                    assert(items@.take(i as int + 1).drop_last() =~= items@.take(i as int));
                    assert(items@.take(i as int + 1).last() == items@[i as int]);
                    assert(acc.deep_view() =~= old_acc.deep_view().push(tm));
                }
            },
            Err(e) => {
                proof {
                    lemma_decode_templates_err(items@, i as int, e);
                }
                return Err(e);
            },
        }
        i = i + 1;
    }
    proof {
        assert(items@.take(n as int) =~= items@);
    }
    Ok(acc)
}

/// Decodes the pagination fields of an object.
fn pagination_from_entries(pes: &Vec<(String, JsonValue)>) -> (r: Result<
    TemplatePagination,
    DecodeError,
>)
    ensures
        r == spec_pagination_fields(pes@),
{
    let limit: i32 = match obj_get(pes, "limit") {
        None => 0,
        Some(JsonValue::Int(n)) => {
            if i32::MIN as i64 <= *n && *n <= i32::MAX as i64 {
                *n as i32
            } else {
                return Err(DecodeError::WrongType(Field::Limit));
            }
        },
        Some(_) => {
            return Err(DecodeError::WrongType(Field::Limit));
        },
    };
    let has_more: bool = match obj_get_with_alias(pes, "has_more", "hasMore") {
        None => false,
        Some(JsonValue::Bool(b)) => *b,
        Some(_) => {
            return Err(DecodeError::WrongType(Field::HasMore));
        },
    };
    Ok(TemplatePagination { limit, has_more })
}

impl TemplateList {
    /// Decodes a list response from a JSON value, as stated by
    /// [`spec_decode_template_list`].
    pub fn from_json(v: &JsonValue) -> (r: Result<TemplateList, DecodeError>)
        ensures
            match r {
                Ok(l) => spec_decode_template_list(*v) == Ok::<TemplateListModel, DecodeError>(l@),
                Err(e) => spec_decode_template_list(*v) == Err::<TemplateListModel, DecodeError>(
                    e,
                ),
            },
    {
        let entries = match v {
            JsonValue::Obj(entries) => entries,
            _ => {
                return Err(DecodeError::NotAnObject);
            },
        };
        let templates = match obj_get(entries, "templates") {
            None => {
                return Err(DecodeError::MissingField(Field::Templates));
            },
            Some(JsonValue::Arr(items)) => match decode_templates(items) {
                Ok(ts) => ts,
                Err(e) => {
                    return Err(e);
                },
            },
            Some(_) => {
                return Err(DecodeError::WrongType(Field::Templates));
            },
        };
        let pagination = match obj_get(entries, "pagination") {
            None => None,
            Some(JsonValue::Null) => None,
            Some(JsonValue::Obj(pes)) => match pagination_from_entries(pes) {
                Ok(p) => Some(p),
                Err(e) => {
                    return Err(e);
                },
            },
            Some(_) => {
                return Err(DecodeError::WrongType(Field::Pagination));
            },
        };
        Ok(TemplateList { templates, pagination })
    }
}

impl DeleteTemplateResponse {
    /// Decodes a delete acknowledgement from a JSON value, as stated by
    /// [`spec_decode_delete_response`].
    pub fn from_json(v: &JsonValue) -> (r: Result<DeleteTemplateResponse, DecodeError>)
        ensures
            match r {
                Ok(d) => spec_decode_delete_response(*v) == Ok::<DeleteResponseModel, DecodeError>(
                    d@,
                ),
                Err(e) => spec_decode_delete_response(*v) == Err::<
                    DeleteResponseModel,
                    DecodeError,
                >(e),
            },
    {
        let entries = match v {
            JsonValue::Obj(entries) => entries,
            _ => {
                return Err(DecodeError::NotAnObject);
            },
        };
        let success: bool = match obj_get(entries, "success") {
            None => {
                return Err(DecodeError::MissingField(Field::Success));
            },
            Some(JsonValue::Bool(b)) => *b,
            Some(_) => {
                return Err(DecodeError::WrongType(Field::Success));
            },
        };
        let message = match obj_get(entries, "message") {
            None => None,
            Some(JsonValue::Null) => None,
            Some(JsonValue::Str(m)) => Some(m.clone()),
            Some(_) => {
                return Err(DecodeError::WrongType(Field::Message));
            },
        };
        Ok(DeleteTemplateResponse { success, message })
    }
}

} // verus!
