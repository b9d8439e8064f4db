use vstd::prelude::*;

verus! {

/// A value as the host presents it to native code.
///
/// A number is held in the form in which it was asked for: as a 32-bit signed
/// integer, or as the bit pattern of an IEEE-754 double.
#[derive(Debug, PartialEq, Eq)]
pub enum HostValue {
    Undefined,
    Null,
    Boolean(bool),
    Int32(i32),
    Double(u64),
    BigInt(u64),
    Text(String),
    Object(HostObject),
    Function,
}

/// One named property of a host object.
#[derive(Debug, PartialEq, Eq)]
pub struct HostProperty {
    pub name: String,
    pub value: HostValue,
}

/// What a handle exposes: its named properties, in the order in which they
/// were set. Where a name occurs more than once, the first occurrence counts.
#[derive(Debug, PartialEq, Eq)]
pub struct HostObject {
    pub properties: Vec<HostProperty>,
}

/// The mathematical value of a `HostValue`.
pub enum ValueView {
    Undefined,
    Null,
    Boolean(bool),
    Int32(i32),
    Double(u64),
    BigInt(u64),
    Text(Seq<char>),
    Object(Seq<PropertyView>),
    Function,
}

/// The mathematical value of a `HostProperty`.
pub struct PropertyView {
    pub name: Seq<char>,
    pub value: ValueView,
}

/// The mathematical value of `value`: texts as sequences of characters,
/// objects as sequences of properties.
pub open spec fn value_view(value: HostValue) -> ValueView
    decreases value,
{
    match value {
        HostValue::Undefined => ValueView::Undefined,
        HostValue::Null => ValueView::Null,
        HostValue::Boolean(b) => ValueView::Boolean(b),
        HostValue::Int32(n) => ValueView::Int32(n),
        HostValue::Double(bits) => ValueView::Double(bits),
        HostValue::BigInt(n) => ValueView::BigInt(n),
        HostValue::Text(s) => ValueView::Text(s@),
        HostValue::Object(o) => ValueView::Object(properties_view(o.properties@)),
        HostValue::Function => ValueView::Function,
    }
}

/// The mathematical values of `properties`, one for one and in their order.
pub open spec fn properties_view(properties: Seq<HostProperty>) -> Seq<PropertyView>
    decreases properties,
{
    if properties.len() == 0 {
        Seq::empty()
    } else {
        properties_view(properties.drop_last()).push(
            PropertyView {
                name: properties.last().name@,
                value: value_view(properties.last().value),
            },
        )
    }
}

impl View for HostValue {
    type V = ValueView;

    open spec fn view(&self) -> ValueView {
        value_view(*self)
    }
}

impl View for HostProperty {
    type V = PropertyView;

    open spec fn view(&self) -> PropertyView {
        PropertyView { name: self.name@, value: self.value@ }
    }
}

impl View for HostObject {
    type V = Seq<PropertyView>;

    open spec fn view(&self) -> Seq<PropertyView> {
        properties_view(self.properties@)
    }
}

/// The value of the first property called `name`, if there is one.
pub open spec fn lookup(object: Seq<PropertyView>, name: Seq<char>) -> Option<ValueView>
    decreases object.len(),
{
    if object.len() == 0 {
        None
    } else if object.first().name == name {
        Some(object.first().value)
    } else {
        lookup(object.drop_first(), name)
    }
}

/// The object after `name` has been set to `value`: the first property of
/// that name is replaced where it stands, and a new name is added at the end.
pub open spec fn assign(object: Seq<PropertyView>, name: Seq<char>, value: ValueView) -> Seq<
    PropertyView,
>
    decreases object.len(),
{
    if object.len() == 0 {
        seq![PropertyView { name, value }]
    } else if object.first().name == name {
        seq![PropertyView { name, value }] + object.drop_first()
    } else {
        seq![object.first()] + assign(object.drop_first(), name, value)
    }
}

/// The view of a list of properties is the list of their views.
pub proof fn lemma_properties_view(properties: Seq<HostProperty>)
    ensures
        properties_view(properties).len() == properties.len(),
        forall|i: int|
            0 <= i < properties.len() ==> (#[trigger] properties_view(properties)[i])
                == properties[i]@,
    decreases properties.len(),
{
    if properties.len() > 0 {
        lemma_properties_view(properties.drop_last());
    }
}

/// `lookup` finds the property at the first index that carries the name.
pub proof fn lemma_lookup_first(object: Seq<PropertyView>, name: Seq<char>, index: int)
    requires
        0 <= index < object.len(),
        object[index].name == name,
        forall|j: int| 0 <= j < index ==> (#[trigger] object[j]).name != name,
    ensures
        lookup(object, name) == Some(object[index].value),
    decreases index,
{
    if index > 0 {
        lemma_lookup_first(object.drop_first(), name, index - 1);
    }
}

/// `lookup` finds nothing where no property carries the name.
pub proof fn lemma_lookup_absent(object: Seq<PropertyView>, name: Seq<char>)
    requires
        forall|j: int| 0 <= j < object.len() ==> (#[trigger] object[j]).name != name,
    ensures
        lookup(object, name) is None,
    decreases object.len(),
{
    if object.len() > 0 {
        lemma_lookup_absent(object.drop_first(), name);
    }
}

/// A property that was set is found again, with the value it was given.
pub proof fn lemma_lookup_assigned(object: Seq<PropertyView>, name: Seq<char>, value: ValueView)
    ensures
        lookup(assign(object, name, value), name) == Some(value),
    decreases object.len(),
{
    let after = assign(object, name, value);
    if object.len() > 0 && object.first().name != name {
        lemma_lookup_assigned(object.drop_first(), name, value);
        assert(after.drop_first() =~= assign(object.drop_first(), name, value));
    }
}

/// Setting one property leaves every property of another name as it was.
pub proof fn lemma_lookup_other(
    object: Seq<PropertyView>,
    name: Seq<char>,
    value: ValueView,
    other: Seq<char>,
)
    requires
        other != name,
    ensures
        lookup(assign(object, name, value), other) == lookup(object, other),
    decreases object.len(),
{
    let after = assign(object, name, value);
    if object.len() == 0 {
        assert(lookup(after.drop_first(), other) is None);
    } else if object.first().name == name {
        assert(after.drop_first() =~= object.drop_first());
    } else {
        lemma_lookup_other(object.drop_first(), name, value, other);
        assert(after.drop_first() =~= assign(object.drop_first(), name, value));
    }
}

impl HostValue {
    /// A deep copy of the value.
    pub fn duplicate(&self) -> (r: HostValue)
        ensures
            r@ == self@,
        decreases self,
    {
        match self {
            HostValue::Undefined => HostValue::Undefined,
            HostValue::Null => HostValue::Null,
            HostValue::Boolean(b) => HostValue::Boolean(*b),
            HostValue::Int32(n) => HostValue::Int32(*n),
            HostValue::Double(bits) => HostValue::Double(*bits),
            HostValue::BigInt(n) => HostValue::BigInt(*n),
            HostValue::Text(s) => HostValue::Text(s.clone()),
            HostValue::Object(o) => HostValue::Object(o.duplicate()),
            HostValue::Function => HostValue::Function,
        }
    }
}

impl HostObject {
    /// An object without properties.
    pub fn new() -> (r: HostObject)
        ensures
            r@ == Seq::<PropertyView>::empty(),
    {
        HostObject { properties: Vec::new() }
    }

    /// A deep copy of the object.
    pub fn duplicate(&self) -> (r: HostObject)
        ensures
            r@ == self@,
        decreases self,
    {
        let mut properties: Vec<HostProperty> = Vec::new();
        let mut i: usize = 0;
        while i < self.properties.len()
            invariant
                i <= self.properties.len(),
                properties@.len() == i,
                forall|j: int| 0 <= j < i ==> (#[trigger] properties@[j])@ == self.properties@[j]@,
            decreases self.properties.len() - i,
        {
            let property = &self.properties[i];
            let copy = HostProperty {
                name: property.name.clone(),
                value: property.value.duplicate(),
            };
            properties.push(copy);
            i += 1;
        }
        proof {
            lemma_properties_view(properties@);
            lemma_properties_view(self.properties@);
        }
        HostObject { properties }
    }

    /// The index of the first property called `name`.
    pub fn index_of(&self, name: &str) -> (r: Option<usize>)
        ensures
            match r {
                Some(index) => {
                    &&& index < self.properties@.len()
                    &&& self.properties@[index as int].name@ == name@
                    &&& lookup(self@, name@) == Some(self.properties@[index as int].value@)
                    &&& forall|j: int|
                        0 <= j < index ==> (#[trigger] self.properties@[j]).name@ != name@
                },
                None => lookup(self@, name@) is None,
            },
    {
        let key = name.to_owned();
        let mut i: usize = 0;
        proof {
            lemma_properties_view(self.properties@);
        }
        while i < self.properties.len()
            invariant
                i <= self.properties.len(),
                key@ == name@,
                self@.len() == self.properties@.len(),
                forall|j: int|
                    0 <= j < self.properties@.len() ==> (#[trigger] self@[j])
                        == self.properties@[j]@,
                forall|j: int| 0 <= j < i ==> (#[trigger] self@[j]).name != name@,
            decreases self.properties.len() - i,
        {
            if self.properties[i].name == key {
                proof {
                    lemma_lookup_first(self@, name@, i as int);
                    assert forall|j: int| 0 <= j < i implies (#[trigger] self.properties@[j]).name@
                        != name@ by {
                        assert(self@[j].name != name@);
                    }
                }
                return Some(i);
            }
            i += 1;
        }
        proof {
            lemma_lookup_absent(self@, name@);
        }
        None
    }

    /// The value of the property called `name`.
    pub fn get(&self, name: &str) -> (r: Option<&HostValue>)
        ensures
            match lookup(self@, name@) {
                Some(value) => r matches Some(found) && found@ == value,
                None => r is None,
            },
    {
        match self.index_of(name) {
            Some(index) => Some(&self.properties[index].value),
            None => None,
        }
    }

    /// Sets the property called `name` to `value`.
    pub fn set(&mut self, name: &str, value: HostValue)
        ensures
            final(self)@ == assign(old(self)@, name@, value@),
    {
        let property = HostProperty { name: name.to_owned(), value };
        match self.index_of(name) {
            Some(index) => {
                proof {
                    lemma_assign_replaces(old(self).properties@, index as int, property);
                }
                self.properties.set(index, property);
            },
            None => {
                proof {
                    lemma_assign_appends(old(self).properties@, property);
                }
                self.properties.push(property);
            },
        }
    }
}

/// Where the first property of that name stands at `index`, `assign` puts the
/// new property there.
proof fn lemma_assign_replaces(properties: Seq<HostProperty>, index: int, property: HostProperty)
    requires
        0 <= index < properties.len(),
        properties[index].name@ == property.name@,
        forall|j: int| 0 <= j < index ==> (#[trigger] properties[j]).name@ != property.name@,
    ensures
        properties_view(properties.update(index, property)) == assign(
            properties_view(properties),
            property.name@,
            property.value@,
        ),
{
    lemma_properties_view(properties);
    lemma_properties_view(properties.update(index, property));
    lemma_assign_at(properties_view(properties), property.name@, property.value@, index);
}

/// Where no property has that name, `assign` adds the new property at the end.
proof fn lemma_assign_appends(properties: Seq<HostProperty>, property: HostProperty)
    requires
        lookup(properties_view(properties), property.name@) is None,
    ensures
        properties_view(properties.push(property)) == assign(
            properties_view(properties),
            property.name@,
            property.value@,
        ),
{
    lemma_properties_view(properties);
    lemma_properties_view(properties.push(property));
    lemma_assign_new(properties_view(properties), property.name@, property.value@);
}

/// `assign` on a name whose first occurrence is at `index` updates that index.
pub proof fn lemma_assign_at(
    object: Seq<PropertyView>,
    name: Seq<char>,
    value: ValueView,
    index: int,
)
    requires
        0 <= index < object.len(),
        object[index].name == name,
        forall|j: int| 0 <= j < index ==> (#[trigger] object[j]).name != name,
    ensures
        assign(object, name, value) == object.update(index, PropertyView { name, value }),
    decreases index,
{
    if index > 0 {
        lemma_assign_at(object.drop_first(), name, value, index - 1);
        assert(assign(object, name, value) =~= object.update(
            index,
            PropertyView { name, value },
        ));
    }
}

/// `assign` on a name that the object does not have appends the property.
pub proof fn lemma_assign_new(object: Seq<PropertyView>, name: Seq<char>, value: ValueView)
    requires
        lookup(object, name) is None,
    ensures
        assign(object, name, value) == object.push(PropertyView { name, value }),
    decreases object.len(),
{
    if object.len() > 0 {
        lemma_assign_new(object.drop_first(), name, value);
    }
}

} // verus!
