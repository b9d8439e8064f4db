use crate::error::{BridgeError, BridgeErrorView};
use crate::host::{HostObject, HostValue, PropertyView, ValueView};
use crate::utils::call_forwarder::{
    coerce_to_number, forward_none, forward_one, forward_two, outcome, plan, Invocation,
};
use crate::utils::fields::{expect_object, required_number, required_string};
use crate::utils::node_converter::{convert_to_js_number, int_at, text_at};
use crate::utils::schema::{
    first_violation, int_field, method, text_field, FieldKind, FieldView, Schema,
};
use vstd::prelude::*;

verus! {

/// The health component of a player, with the fields captured when the view
/// was made.
#[derive(Debug, PartialEq, Eq)]
pub struct PlayerHealthComponent {
    pub object: HostObject,
    pub identifier: String,
    pub effective_min: i32,
    pub effective_max: i32,
    pub default_value: i32,
}

impl PlayerHealthComponent {
    /// The schema of a health component: `identifier` (text),
    /// `effectiveMin`, `effectiveMax`, `defaultValue` (integers), all
    /// required.
    pub open spec fn fields() -> Seq<FieldView> {
        seq![
            text_field("identifier"@),
            int_field("effectiveMin"@),
            int_field("effectiveMax"@),
            int_field("defaultValue"@),
        ]
    }

    /// The name that construction from `object` fails on, if it fails.
    pub open spec fn violation(object: Seq<PropertyView>) -> Option<Seq<char>> {
        first_violation(object, Self::fields(), 0)
    }

    /// Whether the view holds `object` and the fields that `object` exposes.
    pub open spec fn snapshot_of(&self, object: Seq<PropertyView>) -> bool {
        &&& self.object@ == object
        &&& text_at(object, "identifier"@) == Some(self.identifier@)
        &&& int_at(object, "effectiveMin"@) == Some(self.effective_min)
        &&& int_at(object, "effectiveMax"@) == Some(self.effective_max)
        &&& int_at(object, "defaultValue"@) == Some(self.default_value)
    }

    /// Whether `r` is what construction from `object` gives: the view, or
    /// the violation that names the first lacking field.
    pub open spec fn built(
        object: Seq<PropertyView>,
        r: Result<PlayerHealthComponent, BridgeError>,
    ) -> bool {
        match r {
            Ok(health) => Self::violation(object) is None && health.snapshot_of(object),
            Err(error) => Self::violation(object) matches Some(name) && error@
                == BridgeErrorView::SchemaViolation(name),
        }
    }

    /// What applying `damage` forwards: the amount alone where no cause is
    /// given, the amount and then the cause where one is.
    pub open spec fn damage_arguments(damage: i32, cause: Option<i32>) -> Seq<ValueView> {
        match cause {
            Some(cause) => seq![ValueView::Int32(damage), ValueView::Int32(cause)],
            None => seq![ValueView::Int32(damage)],
        }
    }

    /// The schema of a health component, for whoever reads a handle on its behalf.
    pub fn schema() -> (r: Schema)
        ensures
            r@ == Self::fields(),
    {
        Schema::new()
            .with("identifier", FieldKind::Text, true)
            .with("effectiveMin", FieldKind::Int32, true)
            .with("effectiveMax", FieldKind::Int32, true)
            .with("defaultValue", FieldKind::Int32, true)
    }

    /// What is read or called on the handle of a health component after
    /// construction: none of it is required.
    pub open spec fn members() -> Seq<FieldView> {
        seq![
            method("getCurrentValue"@),
            method("setCurrentValue"@),
            method("applyDamage"@),
        ]
    }

    /// The members of a health component, for whoever reads a handle on its behalf.
    pub fn member_schema() -> (r: Schema)
        ensures
            r@ == Self::members(),
    {
        Schema::new()
            .with("getCurrentValue", FieldKind::Function, false)
            .with("setCurrentValue", FieldKind::Function, false)
            .with("applyDamage", FieldKind::Function, false)
    }

    /// A cause that is not given takes no place among the arguments: the
    /// amount is forwarded alone, and with a cause the two are forwarded as
    /// integers, the amount first.
    pub proof fn lemma_damage_arguments(damage: i32, cause: Option<i32>)
        ensures
            cause is None ==> Self::damage_arguments(damage, cause).len() == 1,
            cause is Some ==> Self::damage_arguments(damage, cause).len() == 2,
            Self::damage_arguments(damage, cause)[0] == ValueView::Int32(damage),
            cause matches Some(code) ==> Self::damage_arguments(damage, cause)[1]
                == ValueView::Int32(code),
    {
    }

    /// Builds the view of a health component from its handle.
    pub fn new(object: HostObject) -> (r: Result<PlayerHealthComponent, BridgeError>)
        ensures
            Self::built(object@, r),
    {
        proof {
            reveal_with_fuel(first_violation, 5);
        }
        let identifier = required_string(&object, "identifier")?;
        let effective_min = required_number(&object, "effectiveMin")?;
        let effective_max = required_number(&object, "effectiveMax")?;
        let default_value = required_number(&object, "defaultValue")?;
        Ok(
            PlayerHealthComponent {
                object,
                identifier,
                effective_min,
                effective_max,
                default_value,
            },
        )
    }

    /// Builds the view of a health component from a value that crossed the
    /// boundary.
    pub fn from_value(value: HostValue) -> (r: Result<PlayerHealthComponent, BridgeError>)
        ensures
            match value@ {
                ValueView::Object(object) => Self::built(object, r),
                _ => r matches Err(error) && error@ == BridgeErrorView::NotAnObject,
            },
    {
        let object = expect_object(value)?;
        PlayerHealthComponent::new(object)
    }

    /// Asks for the current value of the health component.
    pub fn get_current_value(&self) -> (r: Result<Invocation, BridgeError>)
        ensures
            outcome(r) == plan(self.object@, "getCurrentValue"@, Seq::empty()),
    {
        forward_none(&self.object, "getCurrentValue")
    }

    /// The integer that `getCurrentValue` returned.
    pub fn get_current_value_reply(reply: &HostValue) -> (r: Result<i32, BridgeError>)
        ensures
            match r {
                Ok(number) => reply@ == ValueView::Int32(number),
                Err(error) => !(reply@ is Int32) && error@
                    == BridgeErrorView::ReturnTypeMismatch("getCurrentValue"@),
            },
    {
        coerce_to_number("getCurrentValue", reply)
    }

    /// Sets the current value of the health component.
    pub fn set_current_value(&self, value: i32) -> (r: Result<Invocation, BridgeError>)
        ensures
            outcome(r) == plan(self.object@, "setCurrentValue"@, seq![ValueView::Int32(value)]),
    {
        let value = convert_to_js_number(value);
        forward_one(&self.object, "setCurrentValue", value)
    }

    /// Applies damage to the health component. A cause that is not given is
    /// not forwarded: the host then receives one argument, not two.
    pub fn apply_damage(&self, damage: i32, cause: Option<i32>) -> (r: Result<
        Invocation,
        BridgeError,
    >)
        ensures
            outcome(r) == plan(
                self.object@,
                "applyDamage"@,
                Self::damage_arguments(damage, cause),
            ),
            r matches Ok(invocation) ==> invocation@.arguments.len() == (if cause is Some {
                2nat
            } else {
                1nat
            }),
    {
        let damage = convert_to_js_number(damage);
        match cause {
            Some(cause) => {
                let cause = convert_to_js_number(cause);
                forward_two(&self.object, "applyDamage", damage, cause)
            },
            None => forward_one(&self.object, "applyDamage", damage),
        }
    }
}

} // verus!
