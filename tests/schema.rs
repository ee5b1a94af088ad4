use lily_cms::errors::BuildError;
use lily_cms::schema::{derive_schema, Field, StructFields};

fn shape(fields: &[(&str, &str)]) -> StructFields {
    StructFields::Named(fields.iter().map(|(n, t)| Field::new(n, t)).collect())
}

fn names(fields: &[Field]) -> Vec<String> {
    fields.iter().map(|f| f.name.clone()).collect()
}

#[test]
fn schema_adds_managed_fields_and_payload_leaves_them_out() {
    let s = derive_schema(&shape(&[
        ("title", "String"),
        ("body", "String"),
        ("summary", "Option<String>"),
    ]))
    .unwrap();
    assert_eq!(names(&s.fields), vec!["id", "created_at", "title", "body", "summary"]);
    assert_eq!(s.fields[0].ty, "String");
    assert_eq!(s.fields[1].ty, "DateTime<Utc>");
    assert_eq!(names(&s.payload), vec!["title", "body", "summary"]);
    assert!(!s.payload.iter().any(|f| f.name == "id" || f.name == "created_at"));
    assert_eq!(s.payload[2].ty, "Option<String>");
}

#[test]
fn schema_of_record_without_domain_fields() {
    let s = derive_schema(&shape(&[])).unwrap();
    assert_eq!(names(&s.fields), vec!["id", "created_at"]);
    assert!(s.payload.is_empty());
}

#[test]
fn reserved_field_name_is_rejected() {
    let r = derive_schema(&shape(&[("title", "String"), ("created_at", "u64"), ("id", "String")]));
    assert_eq!(r.err(), Some(BuildError::ReservedField("created_at".to_string())));
}

#[test]
fn record_without_named_fields_is_rejected() {
    let r = derive_schema(&StructFields::Unnamed(vec!["String".to_string()]));
    assert_eq!(r.err(), Some(BuildError::UnnamedFields));
    let r = derive_schema(&StructFields::Unit);
    assert_eq!(r.err(), Some(BuildError::UnnamedFields));
}
