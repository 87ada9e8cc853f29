use text_to_cypher_node::schema::{LabelInfo, PropertyInfo, RelationshipInfo, SchemaDescriptor};

fn property(key: &str, type_hint: &str) -> PropertyInfo {
    PropertyInfo { key: key.to_string(), type_hint: type_hint.to_string() }
}

fn label(name: &str, properties: Vec<PropertyInfo>) -> LabelInfo {
    LabelInfo { name: name.to_string(), properties }
}

fn relationship(name: &str, properties: Vec<PropertyInfo>) -> RelationshipInfo {
    RelationshipInfo { name: name.to_string(), properties }
}

#[test]
fn empty_descriptor_is_valid_and_empty() {
    let schema = SchemaDescriptor::new();
    assert!(schema.is_empty());
    assert!(schema.labels().is_empty());
    assert!(schema.relationship_types().is_empty());
    assert_eq!(schema.to_json(), "{\"labels\":[],\"relationshipTypes\":[]}");
}

#[test]
fn labels_are_kept_in_order() {
    let mut schema = SchemaDescriptor::new();
    assert!(schema.add_label(label("Actor", vec![property("name", "String")])));
    assert!(schema.add_label(label("Movie", vec![])));
    assert!(!schema.is_empty());
    assert_eq!(schema.labels().len(), 2);
    assert_eq!(schema.labels()[0].name, "Actor");
    assert_eq!(schema.labels()[1].name, "Movie");
    assert!(schema.has_label("Actor"));
    assert!(schema.has_label("Movie"));
    assert!(!schema.has_label("actor"));
    assert!(!schema.has_relationship_type("Actor"));
}

#[test]
fn no_label_is_named_twice() {
    let mut schema = SchemaDescriptor::new();
    assert!(schema.add_label(label("Actor", vec![property("name", "String")])));
    assert!(!schema.add_label(label("Actor", vec![property("born", "Integer")])));
    assert_eq!(schema.labels().len(), 1);
    assert_eq!(schema.labels()[0].properties, vec![property("name", "String")]);
}

#[test]
fn no_relationship_type_is_named_twice() {
    let mut schema = SchemaDescriptor::new();
    assert!(schema.add_relationship_type(relationship("ACTED_IN", vec![])));
    assert!(!schema.add_relationship_type(relationship("ACTED_IN", vec![])));
    assert!(schema.add_relationship_type(relationship("DIRECTED", vec![])));
    assert_eq!(schema.relationship_types().len(), 2);
    assert!(schema.has_relationship_type("DIRECTED"));
    assert!(schema.labels().is_empty());
}

#[test]
fn a_label_and_a_relationship_type_may_share_a_name() {
    let mut schema = SchemaDescriptor::new();
    assert!(schema.add_label(label("LIKES", vec![])));
    assert!(schema.add_relationship_type(relationship("LIKES", vec![])));
}

#[test]
fn descriptor_is_written_as_compact_json() {
    let mut schema = SchemaDescriptor::new();
    schema.add_label(label(
        "Actor",
        vec![property("name", "String"), property("born", "Integer")],
    ));
    schema.add_label(label("Movie", vec![property("released", "Integer")]));
    schema.add_relationship_type(relationship("ACTED_IN", vec![property("role", "String")]));
    assert_eq!(
        schema.to_json(),
        "{\"labels\":[{\"name\":\"Actor\",\"properties\":[{\"key\":\"name\",\"type\":\"String\"},{\"key\":\"born\",\"type\":\"Integer\"}]},{\"name\":\"Movie\",\"properties\":[{\"key\":\"released\",\"type\":\"Integer\"}]}],\"relationshipTypes\":[{\"name\":\"ACTED_IN\",\"properties\":[{\"key\":\"role\",\"type\":\"String\"}]}]}"
    );
}

#[test]
fn names_are_escaped_in_json() {
    let mut schema = SchemaDescriptor::new();
    schema.add_label(label("A \"quoted\" \\ name\n\ttab\r\u{1}\u{1f}é", vec![]));
    assert_eq!(
        schema.to_json(),
        "{\"labels\":[{\"name\":\"A \\\"quoted\\\" \\\\ name\\n\\ttab\\r\\u0001\\u001fé\",\"properties\":[]}],\"relationshipTypes\":[]}"
    );
}

#[test]
fn json_form_is_read_back_by_a_json_reader() {
    let mut schema = SchemaDescriptor::new();
    schema.add_label(label("A \"quoted\" \\ name\n\u{7}", vec![property("k\t", "String")]));
    schema.add_relationship_type(relationship("KNOWS", vec![]));
    let value: serde_json::Value = serde_json::from_str(&schema.to_json()).unwrap();
    assert_eq!(value["labels"][0]["name"], "A \"quoted\" \\ name\n\u{7}");
    assert_eq!(value["labels"][0]["properties"][0]["key"], "k\t");
    assert_eq!(value["labels"][0]["properties"][0]["type"], "String");
    assert_eq!(value["relationshipTypes"][0]["name"], "KNOWS");
}

#[test]
fn equal_descriptors_give_equal_text() {
    let mut one = SchemaDescriptor::new();
    let mut other = SchemaDescriptor::new();
    one.add_label(label("Actor", vec![property("name", "String")]));
    other.add_label(label("Actor", vec![property("name", "String")]));
    assert_eq!(one, other);
    assert_eq!(one.to_json(), other.to_json());
}
