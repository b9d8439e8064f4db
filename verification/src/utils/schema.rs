use crate::host::{lookup, HostObject, HostValue, PropertyView, ValueView};
use vstd::prelude::*;

verus! {

/// The kind of value that a schema expects under a name. For an object it
/// holds the schema of that object.
#[derive(Debug, PartialEq, Eq)]
pub enum FieldKind {
    Text,
    Int32,
    Double,
    Boolean,
    BigInt,
    Function,
    Object(Schema),
}

/// One field of a schema: its name, the kind of value expected, and whether
/// construction fails without it.
#[derive(Debug, PartialEq, Eq)]
pub struct SchemaField {
    pub name: String,
    pub kind: FieldKind,
    pub required: bool,
}

/// The fields that a typed view is built from, in the order in which they are
/// extracted.
#[derive(Debug, PartialEq, Eq)]
pub struct Schema {
    pub fields: Vec<SchemaField>,
}

/// The mathematical value of a `FieldKind`.
pub enum KindView {
    Text,
    Int32,
    Double,
    Boolean,
    BigInt,
    Function,
    Object(Seq<FieldView>),
}

/// The mathematical value of a `SchemaField`.
pub struct FieldView {
    pub name: Seq<char>,
    pub kind: KindView,
    pub required: bool,
}

/// The mathematical value of `kind`.
pub open spec fn kind_view(kind: FieldKind) -> KindView
    decreases kind,
{
    match kind {
        FieldKind::Text => KindView::Text,
        FieldKind::Int32 => KindView::Int32,
        FieldKind::Double => KindView::Double,
        FieldKind::Boolean => KindView::Boolean,
        FieldKind::BigInt => KindView::BigInt,
        FieldKind::Function => KindView::Function,
        FieldKind::Object(schema) => KindView::Object(fields_view(schema.fields@)),
    }
}

/// The mathematical values of `fields`, one for one and in their order.
pub open spec fn fields_view(fields: Seq<SchemaField>) -> Seq<FieldView>
    decreases fields,
{
    if fields.len() == 0 {
        Seq::empty()
    } else {
        fields_view(fields.drop_last()).push(
            FieldView {
                name: fields.last().name@,
                kind: kind_view(fields.last().kind),
                required: fields.last().required,
            },
        )
    }
}

impl View for FieldKind {
    type V = KindView;

    open spec fn view(&self) -> KindView {
        kind_view(*self)
    }
}

impl View for SchemaField {
    type V = FieldView;

    open spec fn view(&self) -> FieldView {
        FieldView { name: self.name@, kind: self.kind@, required: self.required }
    }
}

impl View for Schema {
    type V = Seq<FieldView>;

    open spec fn view(&self) -> Seq<FieldView> {
        fields_view(self.fields@)
    }
}

/// The view of a list of fields is the list of their views.
pub proof fn lemma_fields_view(fields: Seq<SchemaField>)
    ensures
        fields_view(fields).len() == fields.len(),
        forall|i: int|
            0 <= i < fields.len() ==> (#[trigger] fields_view(fields)[i]) == fields[i]@,
    decreases fields.len(),
{
    if fields.len() > 0 {
        lemma_fields_view(fields.drop_last());
    }
}

/// A required field that holds text.
pub open spec fn text_field(name: Seq<char>) -> FieldView {
    FieldView { name, kind: KindView::Text, required: true }
}

/// A required field that holds a 32-bit integer.
pub open spec fn int_field(name: Seq<char>) -> FieldView {
    FieldView { name, kind: KindView::Int32, required: true }
}

/// A required field that holds a double.
pub open spec fn double_field(name: Seq<char>) -> FieldView {
    FieldView { name, kind: KindView::Double, required: true }
}

/// A required field that holds a boolean.
pub open spec fn boolean_field(name: Seq<char>) -> FieldView {
    FieldView { name, kind: KindView::Boolean, required: true }
}

/// A required field that holds a big integer.
pub open spec fn bigint_field(name: Seq<char>) -> FieldView {
    FieldView { name, kind: KindView::BigInt, required: true }
}

/// A required field that holds an object of the given schema.
pub open spec fn object_field(name: Seq<char>, schema: Seq<FieldView>) -> FieldView {
    FieldView { name, kind: KindView::Object(schema), required: true }
}

/// A method of the handle, which no construction asks for.
pub open spec fn method(name: Seq<char>) -> FieldView {
    FieldView { name, kind: KindView::Function, required: false }
}

/// The same field, with a default in place of a failure where it is lacking.
pub open spec fn optional(field: FieldView) -> FieldView {
    FieldView { name: field.name, kind: field.kind, required: false }
}

/// Whether `value` is of the kind `kind`; of an object only that it is one.
pub open spec fn of_kind(value: ValueView, kind: KindView) -> bool {
    match kind {
        KindView::Text => value is Text,
        KindView::Int32 => value is Int32,
        KindView::Double => value is Double,
        KindView::Boolean => value is Boolean,
        KindView::BigInt => value is BigInt,
        KindView::Function => value is Function,
        KindView::Object(_) => value is Object,
    }
}

/// The name that construction by `schema` from `object` fails on, looking at
/// the fields from index `from` on: the first required field that `object`
/// lacks or holds in another kind, or, where that field is an object, the
/// name that its own schema fails on. `None` where construction succeeds.
pub open spec fn first_violation(
    object: Seq<PropertyView>,
    schema: Seq<FieldView>,
    from: int,
) -> Option<Seq<char>>
    decreases schema, schema.len() - from,
{
    if from < 0 || from >= schema.len() {
        None
    } else if !schema[from].required {
        first_violation(object, schema, from + 1)
    } else {
        match lookup(object, schema[from].name) {
            None => Some(schema[from].name),
            Some(value) => if !of_kind(value, schema[from].kind) {
                Some(schema[from].name)
            } else {
                match (value, schema[from].kind) {
                    (ValueView::Object(nested), KindView::Object(nested_schema)) => {
                        match first_violation(nested, nested_schema, 0) {
                            Some(name) => Some(name),
                            None => first_violation(object, schema, from + 1),
                        }
                    },
                    _ => first_violation(object, schema, from + 1),
                }
            },
        }
    }
}

/// Whether `value` is of the kind `kind`; of an object only that it is one.
pub fn has_kind(value: &HostValue, kind: &FieldKind) -> (r: bool)
    ensures
        r == of_kind(value@, kind@),
{
    match (kind, value) {
        (FieldKind::Text, HostValue::Text(_)) => true,
        (FieldKind::Int32, HostValue::Int32(_)) => true,
        (FieldKind::Double, HostValue::Double(_)) => true,
        (FieldKind::Boolean, HostValue::Boolean(_)) => true,
        (FieldKind::BigInt, HostValue::BigInt(_)) => true,
        (FieldKind::Function, HostValue::Function) => true,
        (FieldKind::Object(_), HostValue::Object(_)) => true,
        _ => false,
    }
}

impl Schema {
    /// The schema without fields.
    pub fn new() -> (r: Schema)
        ensures
            r@ == Seq::<FieldView>::empty(),
    {
        Schema { fields: Vec::new() }
    }

    /// The schema with the fields of `other` after its own.
    pub fn followed_by(self, other: Schema) -> (r: Schema)
        ensures
            r@ == self@ + other@,
    {
        let mut fields = self.fields;
        let mut rest = other.fields;
        proof {
            lemma_fields_view(fields@);
            lemma_fields_view(rest@);
            lemma_fields_view(fields@ + rest@);
        }
        fields.append(&mut rest);
        Schema { fields }
    }

    /// The schema with one more field at its end.
    pub fn with(self, name: &str, kind: FieldKind, required: bool) -> (r: Schema)
        ensures
            r@ == self@.push(FieldView { name: name@, kind: kind@, required }),
    {
        let mut fields = self.fields;
        let field = SchemaField { name: name.to_owned(), kind, required };
        proof {
            lemma_fields_view(fields@);
            lemma_fields_view(fields@.push(field));
        }
        fields.push(field);
        Schema { fields }
    }

    /// The name that construction by this schema from `object` fails on, or
    /// `None` where `object` holds every required field.
    pub fn violation(&self, object: &HostObject) -> (r: Option<String>)
        ensures
            match r {
                Some(name) => first_violation(object@, self@, 0) == Some(name@),
                None => first_violation(object@, self@, 0) is None,
            },
        decreases self,
    {
        let mut i: usize = 0;
        proof {
            lemma_fields_view(self.fields@);
        }
        while i < self.fields.len()
            invariant
                i <= self.fields.len(),
                self@.len() == self.fields@.len(),
                forall|j: int|
                    0 <= j < self.fields@.len() ==> (#[trigger] self@[j]) == self.fields@[j]@,
                first_violation(object@, self@, 0) == first_violation(object@, self@, i as int),
            decreases self.fields.len() - i,
        {
            let field = &self.fields[i];
            if field.required {
                match object.get(field.name.as_str()) {
                    None => {
                        return Some(field.name.clone());
                    },
                    Some(value) => {
                        if !has_kind(value, &field.kind) {
                            return Some(field.name.clone());
                        }
                        match (&field.kind, value) {
                            (FieldKind::Object(nested_schema), HostValue::Object(nested)) => {
                                match nested_schema.violation(nested) {
                                    Some(name) => {
                                        return Some(name);
                                    },
                                    None => {},
                                }
                            },
                            _ => {},
                        }
                    },
                }
            }
            i += 1;
        }
        None
    }
}

/// Whether `object` lacks the required field `field`: it has no property of
/// that name, or one of another kind.
pub open spec fn lacking(object: Seq<PropertyView>, field: FieldView) -> bool {
    field.required && match lookup(object, field.name) {
        Some(value) => !of_kind(value, field.kind),
        None => true,
    }
}

/// Whether `object` holds `field` as the schema asks: the field is optional,
/// or the property is there in the expected kind and, where it is an object,
/// that object holds every field of its own schema.
pub open spec fn satisfied(object: Seq<PropertyView>, field: FieldView) -> bool {
    !field.required || match lookup(object, field.name) {
        Some(value) => of_kind(value, field.kind) && match (value, field.kind) {
            (ValueView::Object(nested), KindView::Object(nested_schema)) => first_violation(
                nested,
                nested_schema,
                0,
            ) is None,
            _ => true,
        },
        None => false,
    }
}

/// Where the fields from `from` up to `index` are held and the field at
/// `index` is lacking, the construction from `from` on names that field.
proof fn lemma_violation_from(
    object: Seq<PropertyView>,
    schema: Seq<FieldView>,
    from: int,
    index: int,
)
    requires
        0 <= from <= index < schema.len(),
        forall|j: int| from <= j < index ==> satisfied(object, #[trigger] schema[j]),
        lacking(object, schema[index]),
    ensures
        first_violation(object, schema, from) == Some(schema[index].name),
    decreases index - from,
{
    if from < index {
        lemma_violation_from(object, schema, from + 1, index);
    }
}

/// Where a field from `from` on is lacking, the construction from `from` on
/// fails.
proof fn lemma_fails_from(
    object: Seq<PropertyView>,
    schema: Seq<FieldView>,
    from: int,
    index: int,
)
    requires
        0 <= from <= index < schema.len(),
        lacking(object, schema[index]),
    ensures
        first_violation(object, schema, from) is Some,
    decreases index - from,
{
    if from < index {
        lemma_fails_from(object, schema, from + 1, index);
    }
}

/// Where every field from `from` on is held, the construction from `from` on
/// succeeds, and the other way round.
proof fn lemma_succeeds_from(object: Seq<PropertyView>, schema: Seq<FieldView>, from: int)
    requires
        0 <= from <= schema.len(),
    ensures
        first_violation(object, schema, from) is None <==> forall|j: int|
            from <= j < schema.len() ==> satisfied(object, #[trigger] schema[j]),
    decreases schema.len() - from,
{
    if from < schema.len() {
        lemma_succeeds_from(object, schema, from + 1);
    }
}

/// Construction from a handle that lacks a required field of the schema
/// fails, whatever else the handle holds.
pub proof fn lemma_lacking_field_fails(
    object: Seq<PropertyView>,
    schema: Seq<FieldView>,
    index: int,
)
    requires
        0 <= index < schema.len(),
        lacking(object, schema[index]),
    ensures
        first_violation(object, schema, 0) is Some,
{
    lemma_fails_from(object, schema, 0, index);
}

/// Construction from a handle that holds the fields before `index` and lacks
/// the required field at `index` fails on the name of that field.
pub proof fn lemma_first_lacking_field_is_named(
    object: Seq<PropertyView>,
    schema: Seq<FieldView>,
    index: int,
)
    requires
        0 <= index < schema.len(),
        forall|j: int| 0 <= j < index ==> satisfied(object, #[trigger] schema[j]),
        lacking(object, schema[index]),
    ensures
        first_violation(object, schema, 0) == Some(schema[index].name),
{
    lemma_violation_from(object, schema, 0, index);
}

/// Construction succeeds exactly where the handle holds every required field
/// of the schema: what it holds under the optional ones does not count.
pub proof fn lemma_succeeds_where_required_fields_are_held(
    object: Seq<PropertyView>,
    schema: Seq<FieldView>,
)
    ensures
        first_violation(object, schema, 0) is None <==> forall|j: int|
            0 <= j < schema.len() ==> satisfied(object, #[trigger] schema[j]),
{
    lemma_succeeds_from(object, schema, 0);
}

} // verus!
