use sendly_templates::{
    CreateTemplateRequest, DecodeError, DeleteTemplateResponse, Field, JsonValue,
    ListTemplatesOptions, Template, TemplateList, TemplateType, UpdateTemplateRequest,
};

fn s(x: &str) -> String {
    x.to_string()
}

fn str_val(x: &str) -> JsonValue {
    JsonValue::Str(s(x))
}

fn full_template_obj() -> JsonValue {
    JsonValue::Obj(vec![
        (s("id"), str_val("tmpl_123")),
        (s("name"), str_val("welcome")),
        (s("body"), str_val("Hello {{name}}")),
        (s("template_type"), str_val("preset")),
        (s("locale"), str_val("en-US")),
        (
            s("variables"),
            JsonValue::Arr(vec![str_val("name"), str_val("day")]),
        ),
        (s("is_default"), JsonValue::Bool(true)),
        (s("is_published"), JsonValue::Bool(true)),
        (s("created_at"), str_val("2024-01-01T00:00:00Z")),
        (s("updated_at"), str_val("2024-02-01T00:00:00Z")),
    ])
}

#[test]
fn full_template_decodes_every_field() {
    let t = Template::from_json(&full_template_obj()).unwrap();
    assert_eq!(t.id, "tmpl_123");
    assert_eq!(t.name, "welcome");
    assert_eq!(t.body, "Hello {{name}}");
    assert_eq!(t.template_type, TemplateType::Preset);
    assert_eq!(t.locale.as_deref(), Some("en-US"));
    assert_eq!(t.variables, vec![s("name"), s("day")]);
    assert!(t.is_default);
    assert!(t.is_published);
    assert_eq!(t.created_at.as_deref(), Some("2024-01-01T00:00:00Z"));
    assert_eq!(t.updated_at.as_deref(), Some("2024-02-01T00:00:00Z"));
    assert!(t.is_preset());
    assert!(!t.is_custom());
}

#[test]
fn type_alias_spellings_both_yield_preset() {
    let canonical = JsonValue::Obj(vec![
        (s("id"), str_val("a")),
        (s("name"), str_val("n")),
        (s("body"), str_val("b")),
        (s("template_type"), str_val("preset")),
    ]);
    let legacy = JsonValue::Obj(vec![
        (s("id"), str_val("a")),
        (s("name"), str_val("n")),
        (s("body"), str_val("b")),
        (s("type"), str_val("preset")),
    ]);
    let t1 = Template::from_json(&canonical).unwrap();
    let t2 = Template::from_json(&legacy).unwrap();
    assert_eq!(t1.template_type, TemplateType::Preset);
    assert_eq!(t2.template_type, TemplateType::Preset);
}

#[test]
fn canonical_type_key_wins_over_alias() {
    let both = JsonValue::Obj(vec![
        (s("id"), str_val("a")),
        (s("name"), str_val("n")),
        (s("body"), str_val("b")),
        (s("template_type"), str_val("custom")),
        (s("type"), str_val("preset")),
    ]);
    let t = Template::from_json(&both).unwrap();
    assert_eq!(t.template_type, TemplateType::Custom);
}

#[test]
fn missing_optionals_decode_to_defaults() {
    let minimal = JsonValue::Obj(vec![
        (s("id"), str_val("a")),
        (s("name"), str_val("n")),
        (s("body"), str_val("b")),
    ]);
    let t = Template::from_json(&minimal).unwrap();
    assert_eq!(t.template_type, TemplateType::Custom);
    assert!(t.is_custom());
    assert_eq!(t.locale, None);
    assert!(t.variables.is_empty());
    assert!(!t.is_default);
    assert!(!t.is_published);
    assert_eq!(t.created_at, None);
    assert_eq!(t.updated_at, None);
}

#[test]
fn boolean_and_timestamp_aliases_accepted() {
    let legacy = JsonValue::Obj(vec![
        (s("id"), str_val("a")),
        (s("name"), str_val("n")),
        (s("body"), str_val("b")),
        (s("isDefault"), JsonValue::Bool(true)),
        (s("isPublished"), JsonValue::Bool(true)),
        (s("createdAt"), str_val("2023-05-05")),
        (s("updatedAt"), str_val("2023-06-06")),
    ]);
    let t = Template::from_json(&legacy).unwrap();
    assert!(t.is_default);
    assert!(t.is_published);
    assert_eq!(t.created_at.as_deref(), Some("2023-05-05"));
    assert_eq!(t.updated_at.as_deref(), Some("2023-06-06"));
}

#[test]
fn unknown_template_type_is_an_error() {
    let bad = JsonValue::Obj(vec![
        (s("id"), str_val("a")),
        (s("name"), str_val("n")),
        (s("body"), str_val("b")),
        (s("template_type"), str_val("gold")),
    ]);
    let e = Template::from_json(&bad).unwrap_err();
    assert_eq!(e, DecodeError::UnknownTemplateType(s("gold")));
}

#[test]
fn missing_required_field_is_an_error() {
    let no_id = JsonValue::Obj(vec![(s("name"), str_val("n")), (s("body"), str_val("b"))]);
    let e = Template::from_json(&no_id).unwrap_err();
    assert_eq!(e, DecodeError::MissingField(Field::Id));
}

#[test]
fn non_object_is_an_error() {
    let e = Template::from_json(&str_val("nope")).unwrap_err();
    assert_eq!(e, DecodeError::NotAnObject);
}

#[test]
fn non_string_variable_is_an_error() {
    let bad = JsonValue::Obj(vec![
        (s("id"), str_val("a")),
        (s("name"), str_val("n")),
        (s("body"), str_val("b")),
        (
            s("variables"),
            JsonValue::Arr(vec![str_val("ok"), JsonValue::Int(3)]),
        ),
    ]);
    let e = Template::from_json(&bad).unwrap_err();
    assert_eq!(e, DecodeError::WrongType(Field::Variables));
}

#[test]
fn wrong_type_for_type_key_is_an_error() {
    let bad = JsonValue::Obj(vec![
        (s("id"), str_val("a")),
        (s("name"), str_val("n")),
        (s("body"), str_val("b")),
        (s("template_type"), JsonValue::Int(1)),
    ]);
    let e = Template::from_json(&bad).unwrap_err();
    assert_eq!(e, DecodeError::WrongType(Field::TemplateType));
}

fn obj_keys(v: &JsonValue) -> Vec<String> {
    match v {
        JsonValue::Obj(entries) => entries.iter().map(|e| e.0.clone()).collect(),
        _ => panic!("expected an object"),
    }
}

fn obj_entry<'a>(v: &'a JsonValue, key: &str) -> &'a JsonValue {
    match v {
        JsonValue::Obj(entries) => &entries.iter().find(|e| e.0 == key).unwrap().1,
        _ => panic!("expected an object"),
    }
}

#[test]
fn create_minimal_payload_has_only_name_and_body() {
    let req = CreateTemplateRequest::new("welcome", "Hello {{name}}");
    let payload = req.to_json();
    assert_eq!(obj_keys(&payload), vec![s("name"), s("body")]);
    assert!(matches!(obj_entry(&payload, "name"), JsonValue::Str(n) if n == "welcome"));
    assert!(matches!(obj_entry(&payload, "body"), JsonValue::Str(b) if b == "Hello {{name}}"));
}

#[test]
fn create_full_payload_lists_every_set_field() {
    let req = CreateTemplateRequest::new("welcome", "Hi").locale("en").published(true);
    let payload = req.to_json();
    assert_eq!(
        obj_keys(&payload),
        vec![s("name"), s("body"), s("locale"), s("isPublished")]
    );
    assert!(matches!(obj_entry(&payload, "locale"), JsonValue::Str(l) if l == "en"));
    assert!(matches!(obj_entry(&payload, "isPublished"), JsonValue::Bool(true)));
}

#[test]
fn update_single_field_payloads_carry_exactly_that_key() {
    let by_name = UpdateTemplateRequest::new().name("n2").to_json();
    assert_eq!(obj_keys(&by_name), vec![s("name")]);
    let by_body = UpdateTemplateRequest::new().body("b2").to_json();
    assert_eq!(obj_keys(&by_body), vec![s("body")]);
    let by_locale = UpdateTemplateRequest::new().locale("fr").to_json();
    assert_eq!(obj_keys(&by_locale), vec![s("locale")]);
    let by_published = UpdateTemplateRequest::new().published(false).to_json();
    assert_eq!(obj_keys(&by_published), vec![s("isPublished")]);
    assert!(matches!(
        obj_entry(&by_published, "isPublished"),
        JsonValue::Bool(false)
    ));
}

#[test]
fn update_with_nothing_set_serializes_to_the_empty_object() {
    let payload = UpdateTemplateRequest::new().to_json();
    assert!(obj_keys(&payload).is_empty());
}

#[test]
fn empty_options_yield_no_params() {
    let q = ListTemplatesOptions::new().to_query_params();
    assert!(q.is_empty());
}

#[test]
fn limit_is_clamped_to_one_hundred() {
    let q = ListTemplatesOptions::new().limit(250).to_query_params();
    assert_eq!(q, vec![(s("limit"), s("100"))]);
}

#[test]
fn limit_below_the_cap_is_kept() {
    let q = ListTemplatesOptions::new().limit(7).to_query_params();
    assert_eq!(q, vec![(s("limit"), s("7"))]);
    let q0 = ListTemplatesOptions::new().limit(0).to_query_params();
    assert_eq!(q0, vec![(s("limit"), s("0"))]);
    let q100 = ListTemplatesOptions::new().limit(100).to_query_params();
    assert_eq!(q100, vec![(s("limit"), s("100"))]);
}

#[test]
fn locale_filter_contributes_its_pair() {
    let q = ListTemplatesOptions::new().locale("en-US").to_query_params();
    assert_eq!(q, vec![(s("locale"), s("en-US"))]);
}

#[test]
fn type_filter_serializes_to_lowercase_tokens() {
    let qp = ListTemplatesOptions::new().template_type(TemplateType::Preset).to_query_params();
    assert_eq!(qp, vec![(s("type"), s("preset"))]);
    let qc = ListTemplatesOptions::new().template_type(TemplateType::Custom).to_query_params();
    assert_eq!(qc, vec![(s("type"), s("custom"))]);
}

#[test]
fn delete_response_without_message() {
    let v = JsonValue::Obj(vec![(s("success"), JsonValue::Bool(true))]);
    let d = DeleteTemplateResponse::from_json(&v).unwrap();
    assert!(d.success);
    assert_eq!(d.message, None);
}

#[test]
fn delete_response_with_message() {
    let v = JsonValue::Obj(vec![
        (s("success"), JsonValue::Bool(false)),
        (s("message"), str_val("not found")),
    ]);
    let d = DeleteTemplateResponse::from_json(&v).unwrap();
    assert!(!d.success);
    assert_eq!(d.message.as_deref(), Some("not found"));
}

#[test]
fn delete_response_requires_success() {
    let v = JsonValue::Obj(vec![(s("message"), str_val("gone"))]);
    let e = DeleteTemplateResponse::from_json(&v).unwrap_err();
    assert_eq!(e, DecodeError::MissingField(Field::Success));
    let w = JsonValue::Obj(vec![(s("success"), str_val("yes"))]);
    let e2 = DeleteTemplateResponse::from_json(&w).unwrap_err();
    assert_eq!(e2, DecodeError::WrongType(Field::Success));
}

fn minimal_template_obj(id: &str) -> JsonValue {
    JsonValue::Obj(vec![
        (s("id"), str_val(id)),
        (s("name"), str_val("n")),
        (s("body"), str_val("b")),
    ])
}

#[test]
fn template_list_decodes_in_order_without_pagination() {
    let v = JsonValue::Obj(vec![(
        s("templates"),
        JsonValue::Arr(vec![minimal_template_obj("t1"), minimal_template_obj("t2")]),
    )]);
    let l = TemplateList::from_json(&v).unwrap();
    assert_eq!(l.templates.len(), 2);
    assert_eq!(l.templates[0].id, "t1");
    assert_eq!(l.templates[1].id, "t2");
    assert_eq!(l.pagination, None);
}

#[test]
fn pagination_decodes_with_alias_and_defaults() {
    let v = JsonValue::Obj(vec![
        (s("templates"), JsonValue::Arr(vec![])),
        (
            s("pagination"),
            JsonValue::Obj(vec![
                (s("limit"), JsonValue::Int(25)),
                (s("hasMore"), JsonValue::Bool(true)),
            ]),
        ),
    ]);
    let l = TemplateList::from_json(&v).unwrap();
    let p = l.pagination.unwrap();
    assert_eq!(p.limit, 25);
    assert!(p.has_more);

    let empty_pagination = JsonValue::Obj(vec![
        (s("templates"), JsonValue::Arr(vec![])),
        (s("pagination"), JsonValue::Obj(vec![])),
    ]);
    let l2 = TemplateList::from_json(&empty_pagination).unwrap();
    let p2 = l2.pagination.unwrap();
    assert_eq!(p2.limit, 0);
    assert!(!p2.has_more);
}

#[test]
fn template_list_requires_the_templates_key() {
    let v = JsonValue::Obj(vec![]);
    let e = TemplateList::from_json(&v).unwrap_err();
    assert_eq!(e, DecodeError::MissingField(Field::Templates));
}

#[test]
fn template_list_surfaces_the_first_bad_element() {
    let v = JsonValue::Obj(vec![(
        s("templates"),
        JsonValue::Arr(vec![minimal_template_obj("t1"), str_val("oops")]),
    )]);
    let e = TemplateList::from_json(&v).unwrap_err();
    assert_eq!(e, DecodeError::NotAnObject);
}

#[test]
fn template_type_default_is_custom() {
    assert_eq!(TemplateType::default(), TemplateType::Custom);
}
