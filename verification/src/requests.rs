//! Outbound request builders and their serialization rules.
//!
//! Each builder starts all-empty and exposes chainable setters. A field
//! left unset is omitted from the wire entirely — the server reads a
//! present-but-empty field differently from an absent one — so every
//! serializer's contract pins the exact key/value pairs produced, in order.

use vstd::prelude::*;

use crate::decimal::{dec_str, u32_to_decimal};
use crate::json::JsonValue;
use crate::template::{wire_token, TemplateType};

verus! {

/// The key/value pairs of an encoded object, each key as its characters.
pub open spec fn entry_views(es: Seq<(String, JsonValue)>) -> Seq<(Seq<char>, JsonValue)> {
    es.map_values(|e: (String, JsonValue)| (e.0@, e.1))
}

/// A request to create a template: `name` and `body` are required,
/// `locale` and `is_published` optional.
#[derive(Debug, Clone)]
pub struct CreateTemplateRequest {
    pub name: String,
    pub body: String,
    pub locale: Option<String>,
    pub is_published: Option<bool>,
}

/// The exact wire pairs of a create request: `name` and `body` always,
/// then `locale` and `isPublished` only when set.
pub open spec fn spec_create_pairs(req: CreateTemplateRequest) -> Seq<(Seq<char>, JsonValue)> {
    seq![("name"@, JsonValue::Str(req.name)), ("body"@, JsonValue::Str(req.body))] + (
    match req.locale {
        Some(l) => seq![("locale"@, JsonValue::Str(l))],
        None => Seq::empty(),
    }) + (match req.is_published {
        Some(b) => seq![("isPublished"@, JsonValue::Bool(b))],
        None => Seq::empty(),
    })
}

impl CreateTemplateRequest {
    /// Starts a request with the required fields; the optional ones are
    /// unset and will not appear on the wire.
    pub fn new(name: &str, body: &str) -> (r: Self)
        ensures
            r.name@ == name@,
            r.body@ == body@,
            r.locale is None,
            r.is_published is None,
    {
        CreateTemplateRequest {
            name: String::from_str(name),
            body: String::from_str(body),
            locale: None,
            is_published: None,
        }
    }

    /// Sets the locale tag.
    pub fn locale(self, locale: &str) -> (r: Self)
        ensures
            r.name == self.name,
            r.body == self.body,
            r.locale matches Some(l) && l@ == locale@,
            r.is_published == self.is_published,
    {
        CreateTemplateRequest { locale: Some(String::from_str(locale)), ..self }
    }

    /// Sets whether the template is created already published.
    pub fn published(self, published: bool) -> (r: Self)
        ensures
            r.name == self.name,
            r.body == self.body,
            r.locale == self.locale,
            r.is_published == Some(published),
    {
        CreateTemplateRequest { is_published: Some(published), ..self }
    }

    /// Encodes the request as a JSON object holding exactly the pairs of
    /// [`spec_create_pairs`].
    pub fn to_json(&self) -> (r: JsonValue)
        ensures
            (r matches JsonValue::Obj(entries) && entry_views(entries@) == spec_create_pairs(
                *self,
            )),
    {
        let mut entries: Vec<(String, JsonValue)> = Vec::new();
        entries.push((String::from_str("name"), JsonValue::Str(self.name.clone())));
        entries.push((String::from_str("body"), JsonValue::Str(self.body.clone())));
        match &self.locale {
            Some(l) => entries.push((String::from_str("locale"), JsonValue::Str(l.clone()))),
            None => (),
        }
        match &self.is_published {
            Some(b) => entries.push((String::from_str("isPublished"), JsonValue::Bool(*b))),
            None => (),
        }
        proof {
            assert(entry_views(entries@) =~= spec_create_pairs(*self));
        }
        JsonValue::Obj(entries)
    }
}

/// A partial update of a template: every field optional, only set fields
/// reach the wire. An all-unset request encodes as the empty object.
#[derive(Debug, Clone)]
pub struct UpdateTemplateRequest {
    pub name: Option<String>,
    pub body: Option<String>,
    pub locale: Option<String>,
    pub is_published: Option<bool>,
}

/// The exact wire pairs of an update request: each field only when set,
/// in declaration order.
pub open spec fn spec_update_pairs(req: UpdateTemplateRequest) -> Seq<(Seq<char>, JsonValue)> {
    (match req.name {
        Some(n) => seq![("name"@, JsonValue::Str(n))],
        None => Seq::empty(),
    }) + (match req.body {
        Some(b) => seq![("body"@, JsonValue::Str(b))],
        None => Seq::empty(),
    }) + (match req.locale {
        Some(l) => seq![("locale"@, JsonValue::Str(l))],
        None => Seq::empty(),
    }) + (match req.is_published {
        Some(p) => seq![("isPublished"@, JsonValue::Bool(p))],
        None => Seq::empty(),
    })
}

impl Default for UpdateTemplateRequest {
    /// The no-op update: nothing set, nothing serialized.
    fn default() -> (r: Self)
        ensures
            r.name is None,
            r.body is None,
            r.locale is None,
            r.is_published is None,
    {
        UpdateTemplateRequest { name: None, body: None, locale: None, is_published: None }
    }
}

impl UpdateTemplateRequest {
    /// Starts an update with no field set.
    pub fn new() -> (r: Self)
        ensures
            r.name is None,
            r.body is None,
            r.locale is None,
            r.is_published is None,
    {
        UpdateTemplateRequest { name: None, body: None, locale: None, is_published: None }
    }

    /// Sets the display name.
    pub fn name(self, name: &str) -> (r: Self)
        ensures
            r.name matches Some(n) && n@ == name@,
            r.body == self.body,
            r.locale == self.locale,
            r.is_published == self.is_published,
    {
        UpdateTemplateRequest { name: Some(String::from_str(name)), ..self }
    }

    /// Sets the template text.
    pub fn body(self, body: &str) -> (r: Self)
        ensures
            r.name == self.name,
            r.body matches Some(b) && b@ == body@,
            r.locale == self.locale,
            r.is_published == self.is_published,
    {
        UpdateTemplateRequest { body: Some(String::from_str(body)), ..self }
    }

    /// Sets the locale tag.
    pub fn locale(self, locale: &str) -> (r: Self)
        ensures
            r.name == self.name,
            r.body == self.body,
            r.locale matches Some(l) && l@ == locale@,
            r.is_published == self.is_published,
    {
        UpdateTemplateRequest { locale: Some(String::from_str(locale)), ..self }
    }

    /// Sets the published flag.
    pub fn published(self, published: bool) -> (r: Self)
        ensures
            r.name == self.name,
            r.body == self.body,
            r.locale == self.locale,
            r.is_published == Some(published),
    {
        UpdateTemplateRequest { is_published: Some(published), ..self }
    }

    /// Encodes the update as a JSON object holding exactly the pairs of
    /// [`spec_update_pairs`].
    pub fn to_json(&self) -> (r: JsonValue)
        ensures
            (r matches JsonValue::Obj(entries) && entry_views(entries@) == spec_update_pairs(
                *self,
            )),
    {
        let mut entries: Vec<(String, JsonValue)> = Vec::new();
        match &self.name {
            Some(n) => entries.push((String::from_str("name"), JsonValue::Str(n.clone()))),
            None => (),
        }
        match &self.body {
            Some(b) => entries.push((String::from_str("body"), JsonValue::Str(b.clone()))),
            None => (),
        }
        match &self.locale {
            Some(l) => entries.push((String::from_str("locale"), JsonValue::Str(l.clone()))),
            None => (),
        }
        match &self.is_published {
            Some(p) => entries.push((String::from_str("isPublished"), JsonValue::Bool(*p))),
            None => (),
        }
        proof {
            assert(entry_views(entries@) =~= spec_update_pairs(*self));
        }
        JsonValue::Obj(entries)
    }
}

/// Query configuration for listing templates. A requested limit above 100
/// is silently clamped, never rejected.
#[derive(Debug, Clone)]
pub struct ListTemplatesOptions {
    pub limit: Option<u32>,
    pub template_type: Option<TemplateType>,
    pub locale: Option<String>,
}

/// The options after requesting a limit: the stored value is the
/// requested one clamped to 100; the other options are untouched.
pub open spec fn spec_with_limit(o: ListTemplatesOptions, limit: u32) -> ListTemplatesOptions {
    ListTemplatesOptions {
        limit: Some(
            if limit < 100 {
                limit
            } else {
                100u32
            },
        ),
        ..o
    }
}

/// The exact query pairs of the options: `limit`, then `type`, then
/// `locale`, each only when set; an enum filter serializes to its
/// lowercase wire token.
pub open spec fn spec_query_params(o: ListTemplatesOptions) -> Seq<(Seq<char>, Seq<char>)> {
    (match o.limit {
        Some(l) => seq![("limit"@, dec_str(l as nat))],
        None => Seq::empty(),
    }) + (match o.template_type {
        Some(t) => seq![("type"@, wire_token(t))],
        None => Seq::empty(),
    }) + (match o.locale {
        Some(l) => seq![("locale"@, l@)],
        None => Seq::empty(),
    })
}

impl Default for ListTemplatesOptions {
    /// No filters, no limit: the query string is empty.
    fn default() -> (r: Self)
        ensures
            r.limit is None,
            r.template_type is None,
            r.locale is None,
    {
        ListTemplatesOptions { limit: None, template_type: None, locale: None }
    }
}

impl ListTemplatesOptions {
    /// Starts with no option set.
    pub fn new() -> (r: Self)
        ensures
            r.limit is None,
            r.template_type is None,
            r.locale is None,
    {
        ListTemplatesOptions { limit: None, template_type: None, locale: None }
    }

    /// Requests at most `limit` templates; values above 100 are clamped
    /// to 100.
    pub fn limit(self, limit: u32) -> (r: Self)
        ensures
            r == spec_with_limit(self, limit),
    {
        let clamped: u32 = if limit < 100 {
            limit
        } else {
            100
        };
        ListTemplatesOptions { limit: Some(clamped), ..self }
    }

    /// Filters by template type.
    pub fn template_type(self, t: TemplateType) -> (r: Self)
        ensures
            r.limit == self.limit,
            r.template_type == Some(t),
            r.locale == self.locale,
    {
        ListTemplatesOptions { template_type: Some(t), ..self }
    }

    /// Filters by locale tag.
    pub fn locale(self, locale: &str) -> (r: Self)
        ensures
            r.limit == self.limit,
            r.template_type == self.template_type,
            r.locale matches Some(l) && l@ == locale@,
    {
        ListTemplatesOptions { locale: Some(String::from_str(locale)), ..self }
    }

    /// The ordered key/value pairs of the query string: exactly
    /// [`spec_query_params`]. Omitted options contribute no pair.
    pub fn to_query_params(&self) -> (r: Vec<(String, String)>)
        ensures
            r.deep_view() == spec_query_params(*self),
    {
        let mut params: Vec<(String, String)> = Vec::new();
        match self.limit {
            Some(limit) => params.push((String::from_str("limit"), u32_to_decimal(limit))),
            None => (),
        }
        match &self.template_type {
            Some(t) => {
                let token: &str = match t {
                    TemplateType::Preset => "preset",
                    TemplateType::Custom => "custom",
                };
                params.push((String::from_str("type"), String::from_str(token)));
            },
            None => (),
        }
        match &self.locale {
            Some(locale) => params.push((String::from_str("locale"), locale.clone())),
            None => (),
        }
        proof {
            assert(params.deep_view() =~= spec_query_params(*self));
        }
        params
    }
}

/// Whatever limit a caller requests, the query pair emitted for it
/// carries the requested value clamped to 100, under the key `limit`,
/// first in the query.
pub proof fn lemma_limit_clamped(o: ListTemplatesOptions, limit: u32)
    ensures
        spec_query_params(spec_with_limit(o, limit)).len() >= 1,
        spec_query_params(spec_with_limit(o, limit))[0].0 == "limit"@,
        spec_query_params(spec_with_limit(o, limit))[0].1 == dec_str(
            (if limit < 100 {
                limit
            } else {
                100u32
            }) as nat,
        ),
{
}

/// Options with no field set contribute no query pair at all.
pub proof fn lemma_empty_options_empty_query(o: ListTemplatesOptions)
    requires
        o.limit is None,
        o.template_type is None,
        o.locale is None,
    ensures
        spec_query_params(o) == Seq::<(Seq<char>, Seq<char>)>::empty(),
{
    assert(spec_query_params(o) =~= Seq::<(Seq<char>, Seq<char>)>::empty());
}

/// A create request built with only the required fields serializes to
/// exactly the `name` and `body` pairs: no `locale` or `isPublished` key
/// appears.
pub proof fn lemma_create_minimal_pairs(req: CreateTemplateRequest)
    requires
        req.locale is None,
        req.is_published is None,
    ensures
        spec_create_pairs(req) == seq![
            ("name"@, JsonValue::Str(req.name)),
            ("body"@, JsonValue::Str(req.body)),
        ],
{
    assert(spec_create_pairs(req) =~= seq![
        ("name"@, JsonValue::Str(req.name)),
        ("body"@, JsonValue::Str(req.body)),
    ]);
}

/// An update request with exactly one field set serializes to exactly
/// that one pair.
pub proof fn lemma_update_single_pair(req: UpdateTemplateRequest)
    ensures
        req.body is None && req.locale is None && req.is_published is None ==> (
        req.name matches Some(n) ==> spec_update_pairs(req) == seq![
            ("name"@, JsonValue::Str(n)),
        ]),
        req.name is None && req.locale is None && req.is_published is None ==> (
        req.body matches Some(b) ==> spec_update_pairs(req) == seq![
            ("body"@, JsonValue::Str(b)),
        ]),
        req.name is None && req.body is None && req.is_published is None ==> (
        req.locale matches Some(l) ==> spec_update_pairs(req) == seq![
            ("locale"@, JsonValue::Str(l)),
        ]),
        req.name is None && req.body is None && req.locale is None ==> (
        req.is_published matches Some(p) ==> spec_update_pairs(req) == seq![
            ("isPublished"@, JsonValue::Bool(p)),
        ]),
{
    match req.name {
        Some(n) => {
            if req.body is None && req.locale is None && req.is_published is None {
                assert(spec_update_pairs(req) =~= seq![("name"@, JsonValue::Str(n))]);
            }
        },
        None => (),
    }
    match req.body {
        Some(b) => {
            if req.name is None && req.locale is None && req.is_published is None {
                assert(spec_update_pairs(req) =~= seq![("body"@, JsonValue::Str(b))]);
            }
        },
        None => (),
    }
    match req.locale {
        Some(l) => {
            if req.name is None && req.body is None && req.is_published is None {
                assert(spec_update_pairs(req) =~= seq![("locale"@, JsonValue::Str(l))]);
            }
        },
        None => (),
    }
    match req.is_published {
        Some(p) => {
            if req.name is None && req.body is None && req.locale is None {
                assert(spec_update_pairs(req) =~= seq![("isPublished"@, JsonValue::Bool(p))]);
            }
        },
        None => (),
    }
}

} // verus!
