//! The template entity and its wire decoding rules.
//!
//! A template arrives from the server as a JSON object. Decoding accepts a
//! legacy camel-cased spelling for several keys (`type`, `isDefault`,
//! `isPublished`, `createdAt`, `updatedAt`); when both spellings are present
//! the canonical one wins. Missing optional fields decode to their stated
//! defaults; an unrecognized `template_type` token is a decoding error, never
//! silently mapped to a default.

use vstd::prelude::*;

use crate::json::{lookup, lookup_with_alias, obj_get, obj_get_with_alias, JsonValue};

verus! {

/// Whether a template is provided by the server or authored by a user.
#[derive(Debug, Clone, PartialEq, Eq, Structural)]
pub enum TemplateType {
    Preset,
    Custom,
}

impl Default for TemplateType {
    /// A template is user-authored unless the wire says otherwise.
    fn default() -> (r: Self)
        ensures
            r == TemplateType::Custom,
    {
        TemplateType::Custom
    }
}

/// The wire token of a template type, as it appears in JSON strings and
/// query-parameter values.
pub open spec fn wire_token(t: TemplateType) -> Seq<char> {
    match t {
        TemplateType::Preset => "preset"@,
        TemplateType::Custom => "custom"@,
    }
}

/// The field of a wire object that a decoding error is about.
#[derive(Debug, Clone, Copy, PartialEq, Eq, Structural)]
pub enum Field {
    Id,
    Name,
    Body,
    TemplateType,
    Locale,
    Variables,
    IsDefault,
    IsPublished,
    CreatedAt,
    UpdatedAt,
    Templates,
    Pagination,
    Limit,
    HasMore,
    Success,
    Message,
}

/// Why a wire value failed to decode.
#[derive(Debug, Clone, PartialEq, Eq)]
pub enum DecodeError {
    /// The value was not a JSON object.
    NotAnObject,
    /// A required key was absent.
    MissingField(Field),
    /// A key was present but held a value of the wrong type.
    WrongType(Field),
    /// The `template_type` key held a string that is not a known token.
    UnknownTemplateType(String),
}

/// A template entity as the server describes it.
#[derive(Debug, Clone)]
pub struct Template {
    pub id: String,
    pub name: String,
    pub body: String,
    pub template_type: TemplateType,
    pub locale: Option<String>,
    pub variables: Vec<String>,
    pub is_default: bool,
    pub is_published: bool,
    pub created_at: Option<String>,
    pub updated_at: Option<String>,
}

/// The mathematical shape of a template: every text field as its
/// character sequence.
pub ghost struct TemplateModel {
    pub id: Seq<char>,
    pub name: Seq<char>,
    pub body: Seq<char>,
    pub template_type: TemplateType,
    pub locale: Option<Seq<char>>,
    pub variables: Seq<Seq<char>>,
    pub is_default: bool,
    pub is_published: bool,
    pub created_at: Option<Seq<char>>,
    pub updated_at: Option<Seq<char>>,
}

impl View for Template {
    type V = TemplateModel;

    open spec fn view(&self) -> TemplateModel {
        TemplateModel {
            id: self.id@,
            name: self.name@,
            body: self.body@,
            template_type: self.template_type,
            locale: match self.locale {
                Some(l) => Some(l@),
                None => None,
            },
            variables: self.variables.deep_view(),
            is_default: self.is_default,
            is_published: self.is_published,
            created_at: match self.created_at {
                Some(t) => Some(t@),
                None => None,
            },
            updated_at: match self.updated_at {
                Some(t) => Some(t@),
                None => None,
            },
        }
    }
}

impl DeepView for Template {
    type V = TemplateModel;

    open spec fn deep_view(&self) -> TemplateModel {
        self.view()
    }
}

impl Template {
    /// Whether this template is server-provided.
    pub fn is_preset(&self) -> (r: bool)
        ensures
            r == (self.template_type is Preset),
    {
        self.template_type == TemplateType::Preset
    }

    /// Whether this template is user-authored.
    pub fn is_custom(&self) -> (r: bool)
        ensures
            r == (self.template_type is Custom),
    {
        self.template_type == TemplateType::Custom
    }
}

/// A required string field: present and a string, or an error.
pub open spec fn spec_req_string(
    es: Seq<(String, JsonValue)>,
    key: Seq<char>,
    f: Field,
) -> Result<Seq<char>, DecodeError> {
    match lookup(es, key) {
        Some(JsonValue::Str(s)) => Ok(s@),
        Some(_) => Err(DecodeError::WrongType(f)),
        None => Err(DecodeError::MissingField(f)),
    }
}

/// An optional string field: absent or `null` decodes to `None`.
pub open spec fn spec_opt_string(v: Option<JsonValue>, f: Field) -> Result<
    Option<Seq<char>>,
    DecodeError,
> {
    match v {
        None => Ok(None),
        Some(JsonValue::Null) => Ok(None),
        Some(JsonValue::Str(s)) => Ok(Some(s@)),
        Some(_) => Err(DecodeError::WrongType(f)),
    }
}

/// A boolean field with a legacy alias: absent decodes to `false`.
pub open spec fn spec_bool_default(
    es: Seq<(String, JsonValue)>,
    canonical: Seq<char>,
    legacy: Seq<char>,
    f: Field,
) -> Result<bool, DecodeError> {
    match lookup_with_alias(es, canonical, legacy) {
        None => Ok(false),
        Some(JsonValue::Bool(b)) => Ok(b),
        Some(_) => Err(DecodeError::WrongType(f)),
    }
}

/// The `template_type` field, under either spelling: absent decodes to
/// `Custom`; a string that is neither `preset` nor `custom` is an error.
pub open spec fn spec_type_field(es: Seq<(String, JsonValue)>) -> Result<
    TemplateType,
    DecodeError,
> {
    match lookup_with_alias(es, "template_type"@, "type"@) {
        None => Ok(TemplateType::Custom),
        Some(JsonValue::Str(s)) => if s@ == "preset"@ {
            Ok(TemplateType::Preset)
        } else if s@ == "custom"@ {
            Ok(TemplateType::Custom)
        } else {
            Err(DecodeError::UnknownTemplateType(s))
        },
        Some(_) => Err(DecodeError::WrongType(Field::TemplateType)),
    }
}

/// The items of a JSON array that must all be strings.
pub open spec fn spec_string_items(items: Seq<JsonValue>) -> Result<Seq<Seq<char>>, DecodeError>
    decreases items.len(),
{
    if items.len() == 0 {
        Ok(Seq::empty())
    } else {
        match spec_string_items(items.drop_last()) {
            Err(e) => Err(e),
            Ok(ss) => match items.last() {
                JsonValue::Str(s) => Ok(ss.push(s@)),
                _ => Err(DecodeError::WrongType(Field::Variables)),
            },
        }
    }
}

/// The `variables` field: absent decodes to the empty list.
pub open spec fn spec_variables(es: Seq<(String, JsonValue)>) -> Result<
    Seq<Seq<char>>,
    DecodeError,
> {
    match lookup(es, "variables"@) {
        None => Ok(Seq::empty()),
        Some(JsonValue::Arr(items)) => spec_string_items(items@),
        Some(_) => Err(DecodeError::WrongType(Field::Variables)),
    }
}

/// Decoding of a template from an object's entries, field by field in the
/// order the entity lists them; the first failing field decides the error.
pub open spec fn spec_template_fields(es: Seq<(String, JsonValue)>) -> Result<
    TemplateModel,
    DecodeError,
> {
    match spec_req_string(es, "id"@, Field::Id) {
        Err(e) => Err(e),
        Ok(id) => match spec_req_string(es, "name"@, Field::Name) {
            Err(e) => Err(e),
            Ok(name) => match spec_req_string(es, "body"@, Field::Body) {
                Err(e) => Err(e),
                Ok(body) => match spec_type_field(es) {
                    Err(e) => Err(e),
                    Ok(template_type) => match spec_opt_string(
                        lookup(es, "locale"@),
                        Field::Locale,
                    ) {
                        Err(e) => Err(e),
                        Ok(locale) => match spec_variables(es) {
                            Err(e) => Err(e),
                            Ok(variables) => match spec_bool_default(
                                es,
                                "is_default"@,
                                "isDefault"@,
                                Field::IsDefault,
                            ) {
                                Err(e) => Err(e),
                                Ok(is_default) => match spec_bool_default(
                                    es,
                                    "is_published"@,
                                    "isPublished"@,
                                    Field::IsPublished,
                                ) {
                                    Err(e) => Err(e),
                                    Ok(is_published) => match spec_opt_string(
                                        lookup_with_alias(es, "created_at"@, "createdAt"@),
                                        Field::CreatedAt,
                                    ) {
                                        Err(e) => Err(e),
                                        Ok(created_at) => match spec_opt_string(
                                            lookup_with_alias(es, "updated_at"@, "updatedAt"@),
                                            Field::UpdatedAt,
                                        ) {
                                            Err(e) => Err(e),
                                            Ok(updated_at) => Ok(
                                                TemplateModel {
                                                    id,
                                                    name,
                                                    body,
                                                    template_type,
                                                    locale,
                                                    variables,
                                                    is_default,
                                                    is_published,
                                                    created_at,
                                                    updated_at,
                                                },
                                            ),
                                        },
                                    },
                                },
                            },
                        },
                    },
                },
            },
        },
    }
}

/// What decoding a JSON value into a template yields: the fields of the
/// object, or an error when the value is not an object or a field is bad.
pub open spec fn spec_decode_template(v: JsonValue) -> Result<TemplateModel, DecodeError> {
    match v {
        JsonValue::Obj(entries) => spec_template_fields(entries@),
        _ => Err(DecodeError::NotAnObject),
    }
}

/// The token `preset` yields `Preset` whichever spelling of the type key
/// carried it: the canonical `template_type` and the legacy alias `type`
/// are accepted alike.
pub proof fn lemma_type_alias_accepted(es: Seq<(String, JsonValue)>, s: String)
    requires
        s@ == "preset"@,
        lookup_with_alias(es, "template_type"@, "type"@) == Some(JsonValue::Str(s)),
    ensures
        spec_type_field(es) == Ok::<TemplateType, DecodeError>(TemplateType::Preset),
{
}

/// A template object that carries no `variables`, `is_default` or
/// `is_published` key (under either spelling) decodes them to the empty
/// list, `false` and `false`.
pub proof fn lemma_missing_optionals_default(es: Seq<(String, JsonValue)>)
    requires
        lookup(es, "variables"@) is None,
        lookup_with_alias(es, "is_default"@, "isDefault"@) is None,
        lookup_with_alias(es, "is_published"@, "isPublished"@) is None,
    ensures
        spec_template_fields(es) matches Ok(t) ==> t.variables == Seq::<Seq<char>>::empty()
            && !t.is_default && !t.is_published,
{
}

/// Every error of [`spec_string_items`] reports the `variables` field.
proof fn lemma_string_items_err_value(items: Seq<JsonValue>)
    ensures
        spec_string_items(items) is Err ==> spec_string_items(items) == Err::<
            Seq<Seq<char>>,
            DecodeError,
        >(DecodeError::WrongType(Field::Variables)),
    decreases items.len(),
{
    if items.len() > 0 {
        lemma_string_items_err_value(items.drop_last());
    }
}

/// A non-string item anywhere in the array makes [`spec_string_items`] fail.
proof fn lemma_string_items_err_at(items: Seq<JsonValue>, i: int)
    requires
        0 <= i < items.len(),
        !(items[i] is Str),
    ensures
        spec_string_items(items) is Err,
    decreases items.len(),
{
    if i < items.len() - 1 {
        lemma_string_items_err_at(items.drop_last(), i);
    }
}

/// Reads a required string field out of an object's entries.
fn req_string(entries: &Vec<(String, JsonValue)>, key: &str, f: Field) -> (r: Result<
    String,
    DecodeError,
>)
    ensures
        match r {
            Ok(s) => spec_req_string(entries@, key@, f) == Ok::<Seq<char>, DecodeError>(s@),
            Err(e) => spec_req_string(entries@, key@, f) == Err::<Seq<char>, DecodeError>(e),
        },
{
    match obj_get(entries, key) {
        Some(JsonValue::Str(s)) => Ok(s.clone()),
        Some(_) => Err(DecodeError::WrongType(f)),
        None => Err(DecodeError::MissingField(f)),
    }
}

/// Reads an array of strings; absent means the empty list.
fn string_items(items: &Vec<JsonValue>) -> (r: Result<Vec<String>, DecodeError>)
    ensures
        match r {
            Ok(ss) => spec_string_items(items@) == Ok::<Seq<Seq<char>>, DecodeError>(
                ss.deep_view(),
            ),
            Err(e) => spec_string_items(items@) == Err::<Seq<Seq<char>>, DecodeError>(e),
        },
{
    let n: usize = items.len();
    let mut acc: Vec<String> = Vec::new();
    let mut i: usize = 0;
    proof {
        assert(items@.take(0) =~= Seq::<JsonValue>::empty());
        assert(acc.deep_view() =~= Seq::<Seq<char>>::empty());
    }
    while i < n
        invariant
            n == items@.len(),
            i <= n,
            spec_string_items(items@.take(i as int)) == Ok::<Seq<Seq<char>>, DecodeError>(
                acc.deep_view(),
            ),
        decreases n - i,
    {
        match &items[i] {
            JsonValue::Str(s) => {
                let ghost old_acc = acc;
                acc.push(s.clone());
                proof {
                    assert(items@.take(i as int + 1).drop_last() =~= items@.take(i as int));
                    assert(items@.take(i as int + 1).last() == items@[i as int]);
                    assert(acc.deep_view() =~= old_acc.deep_view().push(s@));
                }
            },
            _ => {
                proof {
                    lemma_string_items_err_at(items@, i as int);
                    lemma_string_items_err_value(items@);
                }
                return Err(DecodeError::WrongType(Field::Variables));
            },
        }
        i = i + 1;
    }
    proof {
        assert(items@.take(n as int) =~= items@);
    }
    Ok(acc)
}

impl Template {
    /// Decodes a template from a JSON value, applying the alias and
    /// default rules stated by [`spec_decode_template`].
    pub fn from_json(v: &JsonValue) -> (r: Result<Template, DecodeError>)
        ensures
            match r {
                Ok(t) => spec_decode_template(*v) == Ok::<TemplateModel, DecodeError>(t@),
                Err(e) => spec_decode_template(*v) == Err::<TemplateModel, DecodeError>(e),
            },
    {
        let entries = match v {
            JsonValue::Obj(entries) => entries,
            _ => {
                return Err(DecodeError::NotAnObject);
            },
        };
        let id = match req_string(entries, "id", Field::Id) {
            Ok(s) => s,
            Err(e) => {
                return Err(e);
            },
        };
        let name = match req_string(entries, "name", Field::Name) {
            Ok(s) => s,
            Err(e) => {
                return Err(e);
            },
        };
        let body = match req_string(entries, "body", Field::Body) {
            Ok(s) => s,
            Err(e) => {
                return Err(e);
            },
        };
        let template_type = match obj_get_with_alias(entries, "template_type", "type") {
            None => TemplateType::Custom,
            Some(JsonValue::Str(s)) => {
                let preset = String::from_str("preset");
                let custom = String::from_str("custom");
                if *s == preset {
                    TemplateType::Preset
                } else if *s == custom {
                    TemplateType::Custom
                } else {
                    return Err(DecodeError::UnknownTemplateType(s.clone()));
                }
            },
            Some(_) => {
                return Err(DecodeError::WrongType(Field::TemplateType));
            },
        };
        let locale = match obj_get(entries, "locale") {
            None => None,
            Some(JsonValue::Null) => None,
            Some(JsonValue::Str(s)) => Some(s.clone()),
            Some(_) => {
                return Err(DecodeError::WrongType(Field::Locale));
            },
        };
        let variables = match obj_get(entries, "variables") {
            None => {
                let empty: Vec<String> = Vec::new();
                proof {
                    assert(empty.deep_view() =~= Seq::<Seq<char>>::empty());
                }
                empty
            },
            Some(JsonValue::Arr(items)) => match string_items(items) {
                Ok(v) => v,
                Err(e) => {
                    return Err(e);
                },
            },
            Some(_) => {
                return Err(DecodeError::WrongType(Field::Variables));
            },
        };
        let is_default = match obj_get_with_alias(entries, "is_default", "isDefault") {
            None => false,
            Some(JsonValue::Bool(b)) => *b,
            Some(_) => {
                return Err(DecodeError::WrongType(Field::IsDefault));
            },
        };
        let is_published = match obj_get_with_alias(entries, "is_published", "isPublished") {
            None => false,
            Some(JsonValue::Bool(b)) => *b,
            Some(_) => {
                return Err(DecodeError::WrongType(Field::IsPublished));
            },
        };
        let created_at = match obj_get_with_alias(entries, "created_at", "createdAt") {
            None => None,
            Some(JsonValue::Null) => None,
            Some(JsonValue::Str(s)) => Some(s.clone()),
            Some(_) => {
                return Err(DecodeError::WrongType(Field::CreatedAt));
            },
        };
        let updated_at = match obj_get_with_alias(entries, "updated_at", "updatedAt") {
            None => None,
            Some(JsonValue::Null) => None,
            Some(JsonValue::Str(s)) => Some(s.clone()),
            Some(_) => {
                return Err(DecodeError::WrongType(Field::UpdatedAt));
            },
        };
        Ok(
            Template {
                id,
                name,
                body,
                template_type,
                locale,
                variables,
                is_default,
                is_published,
                created_at,
                updated_at,
            },
        )
    }
}

} // verus!
