//! Entity and attribute metadata models

use vstd::prelude::*;

verus! {

/// The text of an optional string, empty where there is none.
pub open spec fn text_or_empty(s: Option<String>) -> Seq<char> {
    match s {
        Some(s) => s@,
        None => Seq::empty(),
    }
}

/// A copy of an optional string.
pub fn copy_text(s: &Option<String>) -> (r: Option<String>)
    ensures
        r == *s,
{
    match s {
        Some(s) => Some(s.clone()),
        None => None,
    }
}

/// One label in one language.
#[derive(Debug)]
pub struct LabelValue {
    pub label: Option<String>,
    pub language_code: Option<i32>,
}

impl Clone for LabelValue {
    fn clone(&self) -> (r: LabelValue)
        ensures
            r == *self,
    {
        LabelValue {
            label: copy_text(&self.label),
            language_code: self.language_code,
        }
    }
}

/// Localized label structure from Dataverse
#[derive(Debug)]
pub struct LocalizedLabel {
    pub localized_labels: Option<Vec<LabelValue>>,
    pub user_localized_label: Option<LabelValue>,
}

/// The labels of an optional list, in order.
pub open spec fn labels_of(labels: Option<Vec<LabelValue>>) -> Option<Seq<LabelValue>> {
    match labels {
        Some(labels) => Some(labels@),
        None => None,
    }
}

/// Whether two optional labels hold the same, or both are missing.
pub open spec fn same_label(a: Option<LocalizedLabel>, b: Option<LocalizedLabel>) -> bool {
    match (a, b) {
        (Some(a), Some(b)) => a.same_as(b),
        (None, None) => true,
        _ => false,
    }
}

/// A copy of an optional label.
pub fn copy_label(label: &Option<LocalizedLabel>) -> (r: Option<LocalizedLabel>)
    ensures
        same_label(*label, r),
{
    match label {
        Some(label) => Some(label.clone()),
        None => None,
    }
}

impl Clone for LocalizedLabel {
    fn clone(&self) -> (r: LocalizedLabel)
        ensures
            self.same_as(r),
    {
        let labels = match &self.localized_labels {
            Some(labels) => {
                let copy = labels.clone();
                assert(copy@ =~= labels@);
                Some(copy)
            },
            None => None,
        };
        LocalizedLabel {
            localized_labels: labels,
            user_localized_label: self.user_localized_label.clone(),
        }
    }
}

impl Default for LocalizedLabel {
    fn default() -> (r: LocalizedLabel)
        ensures
            r.localized_labels is None,
            r.user_localized_label is None,
    {
        LocalizedLabel { localized_labels: None, user_localized_label: None }
    }
}

impl LocalizedLabel {
    /// Whether `other` holds the same labels.
    pub open spec fn same_as(&self, other: LocalizedLabel) -> bool {
        &&& labels_of(self.localized_labels) == labels_of(other.localized_labels)
        &&& self.user_localized_label == other.user_localized_label
    }

    /// The label in the user's language, empty where there is none.
    pub open spec fn label_text(&self) -> Seq<char> {
        match self.user_localized_label {
            Some(user) => text_or_empty(user.label),
            None => Seq::empty(),
        }
    }

    /// Get the user's localized label text, or empty string if none
    pub fn get_label(&self) -> (out: String)
        ensures
            out@ == self.label_text(),
    {
        match &self.user_localized_label {
            Some(user) => match &user.label {
                Some(label) => label.clone(),
                None => String::new(),
            },
            None => String::new(),
        }
    }
}

/// The label of an optional localized label, empty where there is none.
pub open spec fn label_or_empty(label: Option<LocalizedLabel>) -> Seq<char> {
    match label {
        Some(label) => label.label_text(),
        None => Seq::empty(),
    }
}

/// The label of `label` where it has a non-empty one, else `fallback`.
pub open spec fn label_or(label: Option<LocalizedLabel>, fallback: Seq<char>) -> Seq<char> {
    if label_or_empty(label).len() > 0 {
        label_or_empty(label)
    } else {
        fallback
    }
}

/// The label of `label` where it has a non-empty one, else `fallback`.
pub fn display_label(label: &Option<LocalizedLabel>, fallback: &String) -> (out: String)
    ensures
        out@ == label_or(*label, fallback@),
{
    match label {
        Some(label) => {
            let text = label.get_label();
            if text.as_str().is_empty() {
                fallback.clone()
            } else {
                text
            }
        },
        None => fallback.clone(),
    }
}

/// Entity metadata from EntityDefinitions
#[derive(Debug)]
pub struct EntityMetadata {
    pub metadata_id: String,
    pub logical_name: String,
    pub schema_name: Option<String>,
    pub display_name: Option<LocalizedLabel>,
    pub description: Option<LocalizedLabel>,
    pub primary_id_attribute: Option<String>,
    pub primary_name_attribute: Option<String>,
    pub entity_set_name: Option<String>,
    pub is_custom_entity: Option<bool>,
    pub is_managed: Option<bool>,
    pub object_type_code: Option<i32>,
}

impl Clone for EntityMetadata {
    fn clone(&self) -> (r: EntityMetadata)
        ensures
            self.same_as(r),
    {
        EntityMetadata {
            metadata_id: self.metadata_id.clone(),
            logical_name: self.logical_name.clone(),
            schema_name: copy_text(&self.schema_name),
            display_name: copy_label(&self.display_name),
            description: copy_label(&self.description),
            primary_id_attribute: copy_text(&self.primary_id_attribute),
            primary_name_attribute: copy_text(&self.primary_name_attribute),
            entity_set_name: copy_text(&self.entity_set_name),
            is_custom_entity: self.is_custom_entity,
            is_managed: self.is_managed,
            object_type_code: self.object_type_code,
        }
    }
}

impl EntityMetadata {
    /// Whether `other` holds the same in every field.
    pub open spec fn same_as(&self, other: EntityMetadata) -> bool {
        &&& self.metadata_id == other.metadata_id
        &&& self.logical_name == other.logical_name
        &&& self.schema_name == other.schema_name
        &&& same_label(self.display_name, other.display_name)
        &&& same_label(self.description, other.description)
        &&& self.primary_id_attribute == other.primary_id_attribute
        &&& self.primary_name_attribute == other.primary_name_attribute
        &&& self.entity_set_name == other.entity_set_name
        &&& self.is_custom_entity == other.is_custom_entity
        &&& self.is_managed == other.is_managed
        &&& self.object_type_code == other.object_type_code
    }

    /// The name under which the entity is shown: its label where it has a
    /// non-empty one, else its logical name.
    pub open spec fn display_text(&self) -> Seq<char> {
        label_or(self.display_name, self.logical_name@)
    }

    /// The name of the entity's set in a query: the one that the catalog
    /// gives, else the logical name with an `s` after it. The second is a guess:
    /// it is wrong for every entity whose plural is formed otherwise.
    pub open spec fn set_name_text(&self) -> Seq<char> {
        match self.entity_set_name {
            Some(name) => name@,
            None => self.logical_name@ + "s"@,
        }
    }

    /// Get the display name or fall back to logical name
    pub fn get_display_name(&self) -> (out: String)
        ensures
            out@ == self.display_text(),
    {
        display_label(&self.display_name, &self.logical_name)
    }

    /// Get description text
    pub fn get_description(&self) -> (out: String)
        ensures
            out@ == label_or_empty(self.description),
    {
        match &self.description {
            Some(label) => label.get_label(),
            None => String::new(),
        }
    }

    /// The name of the entity's set in a query.
    pub fn resolve_set_name(&self) -> (out: String)
        ensures
            out@ == self.set_name_text(),
    {
        match &self.entity_set_name {
            Some(name) => name.clone(),
            None => {
                let mut out = self.logical_name.clone();
                out.append("s");
                out
            },
        }
    }
}

/// The type of an attribute, by name.
#[derive(Debug)]
pub struct AttributeTypeName {
    pub value: String,
}

impl Clone for AttributeTypeName {
    fn clone(&self) -> (r: AttributeTypeName)
        ensures
            r == *self,
    {
        AttributeTypeName {
            value: self.value.clone(),
        }
    }
}

/// How far an attribute is required.
#[derive(Debug)]
pub struct RequiredLevel {
    pub value: String,
}

impl Clone for RequiredLevel {
    fn clone(&self) -> (r: RequiredLevel)
        ensures
            r == *self,
    {
        RequiredLevel {
            value: self.value.clone(),
        }
    }
}

/// Attribute metadata
#[derive(Debug)]
pub struct AttributeMetadata {
    pub metadata_id: String,
    pub logical_name: String,
    pub schema_name: Option<String>,
    pub display_name: Option<LocalizedLabel>,
    pub description: Option<LocalizedLabel>,
    pub attribute_type: Option<String>,
    pub attribute_type_name: Option<AttributeTypeName>,
    pub required_level: Option<RequiredLevel>,
    pub is_custom_attribute: Option<bool>,
    pub is_primary_id: Option<bool>,
    pub is_primary_name: Option<bool>,
    pub max_length: Option<i32>,
}

impl Clone for AttributeMetadata {
    fn clone(&self) -> (r: AttributeMetadata)
        ensures
            self.same_as(r),
    {
        AttributeMetadata {
            metadata_id: self.metadata_id.clone(),
            logical_name: self.logical_name.clone(),
            schema_name: copy_text(&self.schema_name),
            display_name: copy_label(&self.display_name),
            description: copy_label(&self.description),
            attribute_type: copy_text(&self.attribute_type),
            attribute_type_name: self.attribute_type_name.clone(),
            required_level: self.required_level.clone(),
            is_custom_attribute: self.is_custom_attribute,
            is_primary_id: self.is_primary_id,
            is_primary_name: self.is_primary_name,
            max_length: self.max_length,
        }
    }
}

impl AttributeMetadata {
    /// Whether `other` holds the same in every field.
    pub open spec fn same_as(&self, other: AttributeMetadata) -> bool {
        &&& self.metadata_id == other.metadata_id
        &&& self.logical_name == other.logical_name
        &&& self.schema_name == other.schema_name
        &&& same_label(self.display_name, other.display_name)
        &&& same_label(self.description, other.description)
        &&& self.attribute_type == other.attribute_type
        &&& self.attribute_type_name == other.attribute_type_name
        &&& self.required_level == other.required_level
        &&& self.is_custom_attribute == other.is_custom_attribute
        &&& self.is_primary_id == other.is_primary_id
        &&& self.is_primary_name == other.is_primary_name
        &&& self.max_length == other.max_length
    }

    /// The name under which the attribute is shown: its label where it has a
    /// non-empty one, else its logical name.
    pub open spec fn display_text(&self) -> Seq<char> {
        label_or(self.display_name, self.logical_name@)
    }

    /// The type of the attribute: its type name, else its type, else
    /// `Unknown`.
    pub open spec fn type_text(&self) -> Seq<char> {
        match self.attribute_type_name {
            Some(name) => name.value@,
            None => match self.attribute_type {
                Some(kind) => kind@,
                None => "Unknown"@,
            },
        }
    }

    /// Whether the application or the system requires the attribute.
    pub open spec fn required(&self) -> bool {
        match self.required_level {
            Some(level) => level.value@ == "ApplicationRequired"@ || level.value@
                == "SystemRequired"@,
            None => false,
        }
    }

    /// Get the display name or fall back to logical name
    pub fn get_display_name(&self) -> (out: String)
        ensures
            out@ == self.display_text(),
    {
        display_label(&self.display_name, &self.logical_name)
    }

    /// Get the attribute type as a string
    pub fn get_type_name(&self) -> (out: String)
        ensures
            out@ == self.type_text(),
    {
        match &self.attribute_type_name {
            Some(name) => name.value.clone(),
            None => match &self.attribute_type {
                Some(kind) => kind.clone(),
                None => String::from_str("Unknown"),
            },
        }
    }

    /// Check if the attribute is required
    pub fn is_required(&self) -> (r: bool)
        ensures
            r == self.required(),
    {
        match &self.required_level {
            Some(level) => level.value == String::from_str("ApplicationRequired") || level.value
                == String::from_str("SystemRequired"),
            None => false,
        }
    }
}

/// One value of an option set.
#[derive(Debug)]
pub struct OptionSetValue {
    pub value: i32,
    pub label: Option<LocalizedLabel>,
}

impl Clone for OptionSetValue {
    fn clone(&self) -> (r: OptionSetValue)
        ensures
            self.same_as(r),
    {
        OptionSetValue { value: self.value, label: copy_label(&self.label) }
    }
}

impl OptionSetValue {
    /// Whether `other` holds the same value and label.
    pub open spec fn same_as(&self, other: OptionSetValue) -> bool {
        self.value == other.value && same_label(self.label, other.label)
    }

    /// The label of the value, empty where it has none.
    pub fn get_label(&self) -> (out: String)
        ensures
            out@ == label_or_empty(self.label),
    {
        match &self.label {
            Some(label) => label.get_label(),
            None => String::new(),
        }
    }
}

/// Whether two optional lists of values hold the same, value by value, or
/// both are missing.
pub open spec fn same_options(a: Option<Vec<OptionSetValue>>, b: Option<Vec<OptionSetValue>>) -> bool {
    match (a, b) {
        (Some(a), Some(b)) => a@.len() == b@.len() && forall|i: int|
            0 <= i < a@.len() ==> (#[trigger] a@[i]).same_as(b@[i]),
        (None, None) => true,
        _ => false,
    }
}

/// Option set (choice) metadata
#[derive(Debug)]
pub struct OptionSetMetadata {
    pub metadata_id: String,
    pub name: String,
    pub display_name: Option<LocalizedLabel>,
    pub description: Option<LocalizedLabel>,
    pub is_global: Option<bool>,
    pub option_set_type: Option<String>,
    pub options: Option<Vec<OptionSetValue>>,
}

impl Clone for OptionSetMetadata {
    fn clone(&self) -> (r: OptionSetMetadata)
        ensures
            self.same_as(r),
    {
        let options = match &self.options {
            Some(options) => Some(options.clone()),
            None => None,
        };
        OptionSetMetadata {
            metadata_id: self.metadata_id.clone(),
            name: self.name.clone(),
            display_name: copy_label(&self.display_name),
            description: copy_label(&self.description),
            is_global: self.is_global,
            option_set_type: copy_text(&self.option_set_type),
            options,
        }
    }
}

impl OptionSetMetadata {
    /// Whether `other` holds the same in every field.
    pub open spec fn same_as(&self, other: OptionSetMetadata) -> bool {
        &&& self.metadata_id == other.metadata_id
        &&& self.name == other.name
        &&& same_label(self.display_name, other.display_name)
        &&& same_label(self.description, other.description)
        &&& self.is_global == other.is_global
        &&& self.option_set_type == other.option_set_type
        &&& same_options(self.options, other.options)
    }

    /// The name under which the option set is shown: its label where it has
    /// a non-empty one, else its name.
    pub open spec fn display_text(&self) -> Seq<char> {
        label_or(self.display_name, self.name@)
    }

    /// Get the display name or fall back to the name
    pub fn get_display_name(&self) -> (out: String)
        ensures
            out@ == self.display_text(),
    {
        display_label(&self.display_name, &self.name)
    }
}

/// Relationship metadata
#[derive(Debug)]
pub struct RelationshipMetadata {
    pub schema_name: Option<String>,
    // For 1:N and N:1
    pub referencing_entity: Option<String>,
    pub referencing_attribute: Option<String>,
    pub referenced_entity: Option<String>,
    pub referenced_attribute: Option<String>,
    // For N:N
    pub entity1_logical_name: Option<String>,
    pub entity2_logical_name: Option<String>,
    pub intersect_entity_name: Option<String>,
}

impl Clone for RelationshipMetadata {
    fn clone(&self) -> (r: RelationshipMetadata)
        ensures
            r == *self,
    {
        RelationshipMetadata {
            schema_name: copy_text(&self.schema_name),
            referencing_entity: copy_text(&self.referencing_entity),
            referencing_attribute: copy_text(&self.referencing_attribute),
            referenced_entity: copy_text(&self.referenced_entity),
            referenced_attribute: copy_text(&self.referenced_attribute),
            entity1_logical_name: copy_text(&self.entity1_logical_name),
            entity2_logical_name: copy_text(&self.entity2_logical_name),
            intersect_entity_name: copy_text(&self.intersect_entity_name),
        }
    }
}

/// Whether `entity` names an entity other than `from`.
pub open spec fn names_other(entity: Option<String>, from: Seq<char>) -> bool {
    match entity {
        Some(name) => name@ != from,
        None => false,
    }
}

impl RelationshipMetadata {
    /// The entity at the other end, seen from `from`: the first of the
    /// referenced entity, the referencing entity, the first and the second entity
    /// of a many-to-many relationship that is named and is not `from`.
    pub open spec fn related_text(&self, from: Seq<char>) -> Option<Seq<char>> {
        if names_other(self.referenced_entity, from) {
            Some(self.referenced_entity->0@)
        } else if names_other(self.referencing_entity, from) {
            Some(self.referencing_entity->0@)
        } else if names_other(self.entity1_logical_name, from) {
            Some(self.entity1_logical_name->0@)
        } else if names_other(self.entity2_logical_name, from) {
            Some(self.entity2_logical_name->0@)
        } else {
            None
        }
    }

    /// Get a descriptive name for the relationship
    pub fn get_name(&self) -> (out: String)
        ensures
            out@ == match self.schema_name {
                Some(name) => name@,
                None => "Unknown"@,
            },
    {
        match &self.schema_name {
            Some(name) => name.clone(),
            None => String::from_str("Unknown"),
        }
    }

    /// Get the related entity name (for navigation)
    pub fn get_related_entity(&self, from_entity: &str) -> (r: Option<String>)
        ensures
            match r {
                Some(name) => self.related_text(from_entity@) == Some(name@),
                None => self.related_text(from_entity@) is None,
            },
    {
        let from = String::from_str(from_entity);
        // For 1:N/N:1, return the other entity
        if let Some(other) = other_than(&self.referenced_entity, &from) {
            return Some(other);
        }
        if let Some(other) = other_than(&self.referencing_entity, &from) {
            return Some(other);
        }
        // For N:N

        if let Some(other) = other_than(&self.entity1_logical_name, &from) {
            return Some(other);
        }
        if let Some(other) = other_than(&self.entity2_logical_name, &from) {
            return Some(other);
        }
        None
    }
}

/// The name in `entity`, where it names an entity other than `from`.
fn other_than(entity: &Option<String>, from: &String) -> (r: Option<String>)
    ensures
        r is Some == names_other(*entity, from@),
        r is Some ==> r->0@ == entity->0@,
{
    match entity {
        Some(name) => if *name != *from {
            Some(name.clone())
        } else {
            None
        },
        None => None,
    }
}

} // verus!
