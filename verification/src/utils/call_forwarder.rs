use crate::error::{BridgeError, BridgeErrorView};
use crate::host::{lookup, HostObject, HostValue, PropertyView, ValueView};
use crate::utils::node_converter::{callable_at, get_node_func};
use vstd::prelude::*;

verus! {

/// A call that is to be made on a handle: the method's name and the marshaled
/// arguments in the order in which the host is to receive them. The handle
/// that the call was planned on is the receiver.
#[derive(Debug, PartialEq, Eq)]
pub struct Invocation {
    pub method: String,
    pub arguments: Vec<HostValue>,
}

/// The mathematical value of an `Invocation`.
pub struct InvocationView {
    pub method: Seq<char>,
    pub arguments: Seq<ValueView>,
}

impl View for Invocation {
    type V = InvocationView;

    open spec fn view(&self) -> InvocationView {
        InvocationView {
            method: self.method@,
            arguments: self.arguments@.map_values(|value: HostValue| value@),
        }
    }
}

/// The outcome of planning a call, as mathematical values.
pub open spec fn outcome(r: Result<Invocation, BridgeError>) -> Result<
    InvocationView,
    BridgeErrorView,
> {
    match r {
        Ok(invocation) => Ok(invocation@),
        Err(error) => Err(error@),
    }
}

/// What planning a call of `method` on `receiver` gives: the call with its
/// arguments as they were handed in, where the receiver has a callable
/// property of that name, and `MethodNotFound` where it has none.
pub open spec fn plan(
    receiver: Seq<PropertyView>,
    method: Seq<char>,
    arguments: Seq<ValueView>,
) -> Result<InvocationView, BridgeErrorView> {
    if callable_at(receiver, method) {
        Ok(InvocationView { method, arguments })
    } else {
        Err(BridgeErrorView::MethodNotFound(method))
    }
}

/// A call of a method that the handle does not have is refused with
/// `MethodNotFound`, whatever its arguments; so is one of a property that
/// cannot be called.
pub proof fn lemma_missing_method_is_refused(
    receiver: Seq<PropertyView>,
    method: Seq<char>,
    arguments: Seq<ValueView>,
)
    requires
        lookup(receiver, method) != Some(ValueView::Function),
    ensures
        plan(receiver, method, arguments) == Err::<InvocationView, BridgeErrorView>(
            BridgeErrorView::MethodNotFound(method),
        ),
{
}

/// A call of a method that the handle has is planned under that name, with
/// every argument in its place.
pub proof fn lemma_callable_method_is_planned(
    receiver: Seq<PropertyView>,
    method: Seq<char>,
    arguments: Seq<ValueView>,
)
    requires
        lookup(receiver, method) == Some(ValueView::Function),
    ensures
        plan(receiver, method, arguments) matches Ok(invocation) && invocation.method == method
            && invocation.arguments.len() == arguments.len() && forall|i: int|
            0 <= i < arguments.len() ==> invocation.arguments[i] == arguments[i],
{
}

/// Plans a call of `method` on `receiver` with the given arguments.
///
/// The receiver is only read: a call that is refused leaves nothing behind.
pub fn forward(receiver: &HostObject, method: &str, arguments: Vec<HostValue>) -> (r: Result<
    Invocation,
    BridgeError,
>)
    ensures
        outcome(r) == plan(
            receiver@,
            method@,
            arguments@.map_values(|value: HostValue| value@),
        ),
{
    match get_node_func(receiver, method) {
        Ok(function) => Ok(Invocation { method: function.name, arguments }),
        Err(_) => Err(BridgeError::MethodNotFound(method.to_owned())),
    }
}

/// Plans a call of `method` on `receiver` without arguments.
pub fn forward_none(receiver: &HostObject, method: &str) -> (r: Result<Invocation, BridgeError>)
    ensures
        outcome(r) == plan(receiver@, method@, Seq::empty()),
{
    let arguments: Vec<HostValue> = Vec::new();
    proof {
        assert(arguments@.map_values(|value: HostValue| value@) =~= Seq::<ValueView>::empty());
    }
    forward(receiver, method, arguments)
}

/// Plans a call of `method` on `receiver` with one argument.
pub fn forward_one(receiver: &HostObject, method: &str, argument: HostValue) -> (r: Result<
    Invocation,
    BridgeError,
>)
    ensures
        outcome(r) == plan(receiver@, method@, seq![argument@]),
{
    let arguments = vec![argument];
    proof {
        assert(arguments@.map_values(|value: HostValue| value@) =~= seq![argument@]);
    }
    forward(receiver, method, arguments)
}

/// Plans a call of `method` on `receiver` with two arguments, in this order.
pub fn forward_two(
    receiver: &HostObject,
    method: &str,
    first: HostValue,
    second: HostValue,
) -> (r: Result<Invocation, BridgeError>)
    ensures
        outcome(r) == plan(receiver@, method@, seq![first@, second@]),
{
    let arguments = vec![first, second];
    proof {
        assert(arguments@.map_values(|value: HostValue| value@) =~= seq![first@, second@]);
    }
    forward(receiver, method, arguments)
}

/// The boolean that a call of `method` returned. The reply is taken as the
/// host coerced it: one of another kind is a `ReturnTypeMismatch`.
pub fn coerce_to_bool(method: &str, reply: &HostValue) -> (r: Result<bool, BridgeError>)
    ensures
        match r {
            Ok(flag) => reply@ == ValueView::Boolean(flag),
            Err(error) => !(reply@ is Boolean) && error@ == BridgeErrorView::ReturnTypeMismatch(
                method@,
            ),
        },
{
    match reply {
        HostValue::Boolean(flag) => Ok(*flag),
        _ => Err(BridgeError::ReturnTypeMismatch(method.to_owned())),
    }
}

/// The 32-bit integer that a call of `method` returned, on the same terms.
pub fn coerce_to_number(method: &str, reply: &HostValue) -> (r: Result<i32, BridgeError>)
    ensures
        match r {
            Ok(number) => reply@ == ValueView::Int32(number),
            Err(error) => !(reply@ is Int32) && error@ == BridgeErrorView::ReturnTypeMismatch(
                method@,
            ),
        },
{
    match reply {
        HostValue::Int32(number) => Ok(*number),
        _ => Err(BridgeError::ReturnTypeMismatch(method.to_owned())),
    }
}

/// A copy of the object that a call of `method` returned, on the same terms.
pub fn coerce_to_object(method: &str, reply: &HostValue) -> (r: Result<HostObject, BridgeError>)
    ensures
        match r {
            Ok(object) => reply@ == ValueView::Object(object@),
            Err(error) => !(reply@ is Object) && error@ == BridgeErrorView::ReturnTypeMismatch(
                method@,
            ),
        },
{
    match reply {
        HostValue::Object(object) => Ok(object.duplicate()),
        _ => Err(BridgeError::ReturnTypeMismatch(method.to_owned())),
    }
}

} // verus!
