//! The schema descriptor: what labels and relationship types a graph holds,
//! and which property keys each carries.
//!
//! A descriptor is made afresh for every invocation. It names no label twice
//! and no relationship type twice. Its text form is compact JSON, which is
//! what a prompt embeds and what a caller gets back.

use vstd::prelude::*;
use vstd::string::*;
use crate::json::{array_json, push_array, push_quoted, quoted};
use crate::text::{same_text, string_views};

verus! {

/// A property key and a hint at the type of its values.
#[derive(Clone, Debug, PartialEq, Eq)]
pub struct PropertyInfo {
    pub key: String,
    pub type_hint: String,
}

/// A node label and the property keys seen on its nodes.
#[derive(Clone, Debug, PartialEq, Eq)]
pub struct LabelInfo {
    pub name: String,
    pub properties: Vec<PropertyInfo>,
}

/// A relationship type and the property keys seen on its relationships.
#[derive(Clone, Debug, PartialEq, Eq)]
pub struct RelationshipInfo {
    pub name: String,
    pub properties: Vec<PropertyInfo>,
}

/// A `PropertyInfo` as a mathematical value.
pub struct PropertyView {
    pub key: Seq<char>,
    pub type_hint: Seq<char>,
}

/// A `LabelInfo` or a `RelationshipInfo` as a mathematical value.
pub struct InfoView {
    pub name: Seq<char>,
    pub properties: Seq<PropertyView>,
}

/// A `SchemaDescriptor` as a mathematical value.
pub struct SchemaView {
    pub labels: Seq<InfoView>,
    pub relationship_types: Seq<InfoView>,
}

impl View for PropertyInfo {
    type V = PropertyView;

    open spec fn view(&self) -> PropertyView {
        PropertyView { key: self.key@, type_hint: self.type_hint@ }
    }
}

/// The properties of `properties` as mathematical values.
pub open spec fn property_views(properties: Seq<PropertyInfo>) -> Seq<PropertyView> {
    Seq::new(properties.len(), |i: int| properties[i]@)
}

impl View for LabelInfo {
    type V = InfoView;

    open spec fn view(&self) -> InfoView {
        InfoView { name: self.name@, properties: property_views(self.properties@) }
    }
}

impl View for RelationshipInfo {
    type V = InfoView;

    open spec fn view(&self) -> InfoView {
        InfoView { name: self.name@, properties: property_views(self.properties@) }
    }
}

/// The labels of `labels` as mathematical values.
pub open spec fn label_views(labels: Seq<LabelInfo>) -> Seq<InfoView> {
    Seq::new(labels.len(), |i: int| labels[i]@)
}

/// The relationship types of `types` as mathematical values.
pub open spec fn relationship_views(types: Seq<RelationshipInfo>) -> Seq<InfoView> {
    Seq::new(types.len(), |i: int| types[i]@)
}

/// Whether no two of `infos` bear the same name.
pub open spec fn names_unique(infos: Seq<InfoView>) -> bool {
    forall|i: int, j: int|
        0 <= i < j < infos.len() ==> (#[trigger] infos[i]).name != (#[trigger] infos[j]).name
}

/// Whether one of `infos` bears the name `name`.
pub open spec fn names(infos: Seq<InfoView>, name: Seq<char>) -> bool {
    exists|i: int| 0 <= i < infos.len() && (#[trigger] infos[i]).name == name
}

/// A name that none of `infos` bears can be added without a name occurring
/// twice.
pub proof fn lemma_push_keeps_unique(infos: Seq<InfoView>, info: InfoView)
    requires
        names_unique(infos),
        !names(infos, info.name),
    ensures
        names_unique(infos.push(info)),
{
    let after = infos.push(info);
    assert forall|i: int, j: int| 0 <= i < j < after.len() implies (#[trigger] after[i]).name != (
    #[trigger] after[j]).name by {
        if j < infos.len() {
            assert(after[i] == infos[i] && after[j] == infos[j]);
        } else {
            assert(after[i] == infos[i]);
        }
    }
}

impl SchemaView {
    /// The descriptor of a graph that holds nothing.
    pub open spec fn empty() -> SchemaView {
        SchemaView { labels: Seq::empty(), relationship_types: Seq::empty() }
    }

    /// Whether the descriptor names no label and no relationship type twice.
    pub open spec fn well_formed(self) -> bool {
        names_unique(self.labels) && names_unique(self.relationship_types)
    }
}

/// A property as a JSON object.
pub open spec fn property_json(property: PropertyView) -> Seq<char> {
    "{\"key\":"@ + quoted(property.key) + ",\"type\":"@ + quoted(property.type_hint) + "}"@
}

/// The JSON objects of `properties`, in order.
pub open spec fn property_jsons(properties: Seq<PropertyView>) -> Seq<Seq<char>> {
    Seq::new(properties.len(), |i: int| property_json(properties[i]))
}

/// A label or a relationship type as a JSON object.
pub open spec fn info_json(info: InfoView) -> Seq<char> {
    "{\"name\":"@ + quoted(info.name) + ",\"properties\":"@ + array_json(
        property_jsons(info.properties),
    ) + "}"@
}

/// The JSON objects of `infos`, in order.
pub open spec fn info_jsons(infos: Seq<InfoView>) -> Seq<Seq<char>> {
    Seq::new(infos.len(), |i: int| info_json(infos[i]))
}

/// A descriptor as compact JSON.
pub open spec fn schema_json(schema: SchemaView) -> Seq<char> {
    "{\"labels\":"@ + array_json(info_jsons(schema.labels)) + ",\"relationshipTypes\":"@
        + array_json(info_jsons(schema.relationship_types)) + "}"@
}

/// The JSON object of `property`.
fn property_text(property: &PropertyInfo) -> (s: String)
    ensures
        s@ == property_json(property@),
{
    let mut s = String::from_str("{\"key\":");
    push_quoted(&mut s, property.key.as_str());
    s.append(",\"type\":");
    push_quoted(&mut s, property.type_hint.as_str());
    s.append("}");
    s
}

/// The JSON objects of `properties`, in order.
fn property_texts(properties: &Vec<PropertyInfo>) -> (texts: Vec<String>)
    ensures
        string_views(texts@) == property_jsons(property_views(properties@)),
{
    let mut texts: Vec<String> = Vec::new();
    let mut i: usize = 0;
    while i < properties.len()
        invariant
            i <= properties.len(),
            texts.len() == i,
            forall|j: int| 0 <= j < i ==> (#[trigger] texts[j])@ == property_json(properties[j]@),
        decreases properties.len() - i,
    {
        texts.push(property_text(&properties[i]));
        i = i + 1;
    }
    texts
}

/// The JSON object of a label or relationship type named `name` with the
/// properties `properties`.
fn info_text(name: &str, properties: &Vec<PropertyInfo>) -> (s: String)
    ensures
        s@ == info_json(InfoView { name: name@, properties: property_views(properties@) }),
{
    let mut s = String::from_str("{\"name\":");
    push_quoted(&mut s, name);
    s.append(",\"properties\":");
    let items = property_texts(properties);
    push_array(&mut s, &items);
    s.append("}");
    s
}

/// What is known of a graph's shape: its labels and its relationship types.
///
/// No label and no relationship type is named twice; the constructors and
/// methods keep it so.
#[derive(Debug, PartialEq, Eq)]
pub struct SchemaDescriptor {
    labels: Vec<LabelInfo>,
    relationship_types: Vec<RelationshipInfo>,
}

impl View for SchemaDescriptor {
    type V = SchemaView;

    closed spec fn view(&self) -> SchemaView {
        SchemaView {
            labels: label_views(self.labels@),
            relationship_types: relationship_views(self.relationship_types@),
        }
    }
}

impl SchemaDescriptor {
    #[verifier::type_invariant]
    spec fn unique_names(self) -> bool {
        self@.well_formed()
    }

    /// The descriptor of a graph that holds nothing.
    pub fn new() -> (schema: SchemaDescriptor)
        ensures
            schema@ == SchemaView::empty(),
            schema@.well_formed(),
    {
        let schema = SchemaDescriptor { labels: Vec::new(), relationship_types: Vec::new() };
        assert(schema@.labels =~= Seq::empty());
        assert(schema@.relationship_types =~= Seq::empty());
        schema
    }

    /// Whether the graph holds nothing: no label and no relationship type.
    pub fn is_empty(&self) -> (r: bool)
        ensures
            r == (self@.labels.len() == 0 && self@.relationship_types.len() == 0),
    {
        self.labels.len() == 0 && self.relationship_types.len() == 0
    }

    /// The labels, in the order in which they were added.
    pub fn labels(&self) -> (labels: &Vec<LabelInfo>)
        ensures
            label_views(labels@) == self@.labels,
    {
        &self.labels
    }

    /// The relationship types, in the order in which they were added.
    pub fn relationship_types(&self) -> (types: &Vec<RelationshipInfo>)
        ensures
            relationship_views(types@) == self@.relationship_types,
    {
        &self.relationship_types
    }

    /// Whether a label named `name` is described.
    pub fn has_label(&self, name: &str) -> (r: bool)
        ensures
            r == names(self@.labels, name@),
    {
        let mut i: usize = 0;
        while i < self.labels.len()
            invariant
                i <= self.labels.len(),
                forall|j: int| 0 <= j < i ==> (#[trigger] label_views(self.labels@)[j]).name != name@,
            decreases self.labels.len() - i,
        {
            if same_text(self.labels[i].name.as_str(), name) {
                assert(label_views(self.labels@)[i as int].name == name@);
                return true;
            }
            i = i + 1;
        }
        false
    }

    /// Whether a relationship type named `name` is described.
    pub fn has_relationship_type(&self, name: &str) -> (r: bool)
        ensures
            r == names(self@.relationship_types, name@),
    {
        let mut i: usize = 0;
        while i < self.relationship_types.len()
            invariant
                i <= self.relationship_types.len(),
                forall|j: int|
                    0 <= j < i ==> (#[trigger] relationship_views(
                        self.relationship_types@,
                    )[j]).name != name@,
            decreases self.relationship_types.len() - i,
        {
            if same_text(self.relationship_types[i].name.as_str(), name) {
                assert(relationship_views(self.relationship_types@)[i as int].name == name@);
                return true;
            }
            i = i + 1;
        }
        false
    }

    /// Adds `label` behind the labels already described, unless one of them
    /// bears its name: then nothing changes. Returns whether it was added.
    pub fn add_label(&mut self, label: LabelInfo) -> (added: bool)
        ensures
            added == !names(old(self)@.labels, label@.name),
            final(self)@.relationship_types == old(self)@.relationship_types,
            final(self)@.labels == if added {
                old(self)@.labels.push(label@)
            } else {
                old(self)@.labels
            },
            final(self)@.well_formed(),
    {
        proof {
            use_type_invariant(&*self);
        }
        if self.has_label(label.name.as_str()) {
            return false;
        }
        let ghost before = self@;
        let mut labels: Vec<LabelInfo> = Vec::new();
        core::mem::swap(&mut labels, &mut self.labels);
        labels.push(label);
        proof {
            assert(label_views(labels@) =~= before.labels.push(label@));
            lemma_push_keeps_unique(before.labels, label@);
        }
        self.labels = labels;
        true
    }

    /// Adds `relationship` behind the relationship types already described,
    /// unless one of them bears its name: then nothing changes. Returns
    /// whether it was added.
    pub fn add_relationship_type(&mut self, relationship: RelationshipInfo) -> (added: bool)
        ensures
            added == !names(old(self)@.relationship_types, relationship@.name),
            final(self)@.labels == old(self)@.labels,
            final(self)@.relationship_types == if added {
                old(self)@.relationship_types.push(relationship@)
            } else {
                old(self)@.relationship_types
            },
            final(self)@.well_formed(),
    {
        proof {
            use_type_invariant(&*self);
        }
        if self.has_relationship_type(relationship.name.as_str()) {
            return false;
        }
        let ghost before = self@;
        let mut types: Vec<RelationshipInfo> = Vec::new();
        core::mem::swap(&mut types, &mut self.relationship_types);
        types.push(relationship);
        proof {
            assert(relationship_views(types@) =~= before.relationship_types.push(relationship@));
            lemma_push_keeps_unique(before.relationship_types, relationship@);
        }
        self.relationship_types = types;
        true
    }

    /// The JSON objects of the labels, in order.
    fn label_texts(&self) -> (texts: Vec<String>)
        ensures
            string_views(texts@) == info_jsons(self@.labels),
    {
        let mut texts: Vec<String> = Vec::new();
        let mut i: usize = 0;
        while i < self.labels.len()
            invariant
                i <= self.labels.len(),
                texts.len() == i,
                forall|j: int| 0 <= j < i ==> (#[trigger] texts[j])@ == info_json(self.labels[j]@),
            decreases self.labels.len() - i,
        {
            let label = &self.labels[i];
            texts.push(info_text(label.name.as_str(), &label.properties));
            i = i + 1;
        }
        texts
    }

    /// The JSON objects of the relationship types, in order.
    fn relationship_texts(&self) -> (texts: Vec<String>)
        ensures
            string_views(texts@) == info_jsons(self@.relationship_types),
    {
        let mut texts: Vec<String> = Vec::new();
        let mut i: usize = 0;
        while i < self.relationship_types.len()
            invariant
                i <= self.relationship_types.len(),
                texts.len() == i,
                forall|j: int|
                    0 <= j < i ==> (#[trigger] texts[j])@ == info_json(
                        self.relationship_types[j]@,
                    ),
            decreases self.relationship_types.len() - i,
        {
            let relationship = &self.relationship_types[i];
            texts.push(info_text(relationship.name.as_str(), &relationship.properties));
            i = i + 1;
        }
        texts
    }

    /// The descriptor as compact JSON.
    pub fn to_json(&self) -> (s: String)
        ensures
            s@ == schema_json(self@),
    {
        let labels = self.label_texts();
        let types = self.relationship_texts();
        let mut s = String::from_str("{\"labels\":");
        push_array(&mut s, &labels);
        s.append(",\"relationshipTypes\":");
        push_array(&mut s, &types);
        s.append("}");
        s
    }
}

} // verus!
