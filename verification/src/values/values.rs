//! The value model: what a value is, how values are built and projected, and
//! when two values are equal.

use crate::code::bytecode_constants::{
    not_a_string_message, not_an_int_message, ConstantView, JexConstant,
};
use crate::exceptions::runtime_exceptions::TypeException;
use crate::exceptions::static_exceptions::{InvalidFunctionChunk, NotFoundChunkForFunction};
use crate::runtime::{code_of, fault_of, get_chunk, machine_code, Fault};
use crate::types::JexMachine;
use extendable_vm::{Code, Exception};
use std::cell::RefCell;
use std::collections::HashMap;
use std::rc::Rc;
use vstd::prelude::*;
use vstd::std_specs::cmp::PartialEqSpec;

verus! {

/// A runtime value. Strings and instances live on the heap and are shared by
/// every value slot that holds them.
pub enum JexValue {
    Null(JexNull),
    Int(i32),
    Bool(bool),
    Object(Rc<JexObject>),
    Instance(Rc<JexInstance>),
    Function(JexFunction),
}

/// The single null value.
#[derive(PartialEq, Eq, Structural, Debug, Clone, Copy)]
pub struct JexNull;

/// An immutable heap object.
pub enum JexObject {
    String(String),
}

/// A callable: the top-level script, or a function compiled into a chunk.
#[derive(Debug)]
pub enum JexFunction {
    Script,
    Function { arity: usize, chunk_id: usize, name: String },
}

/// A mutable map from field names to values. An instance is known to the
/// verifier by its identity alone; its fields change behind shared
/// references and are not part of that identity.
#[verifier::external_body]
pub struct JexInstance {
    fields: RefCell<HashMap<String, JexValue>>,
}

/// The variant of a value.
#[derive(PartialEq, Eq, Structural, Debug, Clone, Copy)]
pub enum ValueKind {
    Null,
    Int,
    Bool,
    Object,
    Instance,
    Function,
}

/// What a heap object holds.
pub enum ObjectView {
    String(Seq<char>),
}

/// What a callable is.
pub enum FunctionView {
    Script,
    Function { arity: nat, chunk_id: nat, name: Seq<char> },
}

/// What a value is: its variant with its payload. A string stands for its
/// characters and an instance for its identity.
pub enum ValueView {
    Null,
    Int(int),
    Bool(bool),
    Object(ObjectView),
    Instance(JexInstance),
    Function(FunctionView),
}

impl View for JexObject {
    type V = ObjectView;

    open spec fn view(&self) -> ObjectView {
        match *self {
            JexObject::String(text) => ObjectView::String(text@),
        }
    }
}

impl View for JexFunction {
    type V = FunctionView;

    open spec fn view(&self) -> FunctionView {
        match *self {
            JexFunction::Script => FunctionView::Script,
            JexFunction::Function { arity, chunk_id, name } => FunctionView::Function {
                arity: arity as nat,
                chunk_id: chunk_id as nat,
                name: name@,
            },
        }
    }
}

impl View for JexValue {
    type V = ValueView;

    open spec fn view(&self) -> ValueView {
        match *self {
            JexValue::Null(_) => ValueView::Null,
            JexValue::Int(i) => ValueView::Int(i as int),
            JexValue::Bool(b) => ValueView::Bool(b),
            JexValue::Object(object) => ValueView::Object(object@),
            JexValue::Instance(instance) => ValueView::Instance(*instance),
            JexValue::Function(function) => ValueView::Function(function@),
        }
    }
}

/// `Rc::clone`: the new handle points to the allocation of the old one, so
/// both denote the same object.
#[verifier::external_body]
fn share<T>(handle: &Rc<T>) -> (shared: Rc<T>)
    ensures
        shared == *handle,
{
    Rc::clone(handle)
}

/// `Rc::ptr_eq`: whether two handles point to one allocation. An instance is
/// opaque to the verifier and stands for its allocation, so the handles
/// denote equal instances exactly when this holds.
#[verifier::external_body]
fn same_instance(left: &Rc<JexInstance>, right: &Rc<JexInstance>) -> (same: bool)
    ensures
        same == (*left == *right),
{
    Rc::ptr_eq(left, right)
}

impl JexValue {
    /// The variant of this value.
    pub open spec fn kind(&self) -> ValueKind {
        match *self {
            JexValue::Null(_) => ValueKind::Null,
            JexValue::Int(_) => ValueKind::Int,
            JexValue::Bool(_) => ValueKind::Bool,
            JexValue::Object(_) => ValueKind::Object,
            JexValue::Instance(_) => ValueKind::Instance,
            JexValue::Function(_) => ValueKind::Function,
        }
    }

    /// The null value.
    pub fn null() -> (value: JexValue)
        ensures
            value == JexValue::Null(JexNull),
    {
        JexValue::Null(JexNull)
    }

    /// A value that holds a new instance. Nothing is promised of which
    /// instance it is: each call allocates one.
    pub fn new_object() -> (value: JexValue)
        ensures
            value is Instance,
    {
        JexValue::Instance(Rc::new(JexInstance::new()))
    }

    /// A value that holds the string as a new heap object.
    pub fn from_string(string: String) -> (value: JexValue)
        ensures
            value == JexValue::Object(Rc::new(JexObject::String(string))),
            value@ == ValueView::Object(ObjectView::String(string@)),
    {
        JexValue::Object(Rc::new(JexObject::String(string)))
    }

    /// The integer of an integer value, and nothing for another value.
    pub fn as_int(&self) -> (projection: Option<i32>)
        ensures
            projection == (match *self {
                JexValue::Int(i) => Some(i),
                _ => None,
            }),
    {
        if let JexValue::Int(i) = self {
            Some(*i)
        } else {
            None
        }
    }

    /// The boolean of a boolean value, and nothing for another value.
    pub fn as_bool(&self) -> (projection: Option<bool>)
        ensures
            projection == (match *self {
                JexValue::Bool(b) => Some(b),
                _ => None,
            }),
    {
        if let JexValue::Bool(b) = self {
            Some(*b)
        } else {
            None
        }
    }

    /// The callable of a function value, and nothing for another value.
    pub fn as_function(&self) -> (projection: Option<&JexFunction>)
        ensures
            projection == (match *self {
                JexValue::Function(function) => Some(&function),
                _ => None,
            }),
    {
        if let JexValue::Function(function) = self {
            Some(function)
        } else {
            None
        }
    }

    /// The heap object of an object value, and nothing for another value.
    pub fn as_object(&self) -> (projection: Option<&JexObject>)
        ensures
            projection == (match *self {
                JexValue::Object(object) => Some(&*object),
                _ => None,
            }),
    {
        if let JexValue::Object(object) = self {
            Some(&**object)
        } else {
            None
        }
    }

    /// The string of a string value, and nothing for another value.
    pub fn as_string(&self) -> (projection: Option<&String>)
        ensures
            projection == (match *self {
                JexValue::Object(object) => match *object {
                    JexObject::String(text) => Some(&text),
                },
                _ => None,
            }),
    {
        match self.as_object() {
            Some(JexObject::String(text)) => Some(text),
            None => None,
        }
    }

    /// The instance of an instance value, and nothing for another value.
    pub fn as_instance(&self) -> (projection: Option<&JexInstance>)
        ensures
            projection == (match *self {
                JexValue::Instance(instance) => Some(&*instance),
                _ => None,
            }),
    {
        if let JexValue::Instance(instance) = self {
            Some(&**instance)
        } else {
            None
        }
    }
}

/// The callable that a chunk of a program describes, or the fault of taking
/// the chunk for a function. The first constant of such a chunk is the
/// function's name and the second its number of parameters.
pub open spec fn function_of_chunk(code: Code<JexConstant>, chunk_id: nat) -> Result<
    FunctionView,
    Fault,
> {
    if chunk_id >= code.chunks@.len() {
        Err(NotFoundChunkForFunction(chunk_id as usize).fault())
    } else {
        let constants = code.chunks@[chunk_id as int].constants@;
        if constants.len() < 1 {
            Err(InvalidFunctionChunk(chunk_id as usize).fault())
        } else {
            match constants[0]@ {
                ConstantView::String(name) => if constants.len() < 2 {
                    Err(InvalidFunctionChunk(chunk_id as usize).fault())
                } else {
                    match constants[1]@ {
                        ConstantView::Int(arity) => if arity < 0 {
                            Err(InvalidFunctionChunk(chunk_id as usize).fault())
                        } else {
                            Ok(FunctionView::Function { arity: arity as nat, chunk_id, name })
                        },
                        other => Err(TypeException::message_fault(not_an_int_message(other))),
                    }
                },
                other => Err(TypeException::message_fault(not_a_string_message(other))),
            }
        }
    }
}

impl JexFunction {
    /// The function that the chunk with the given index describes.
    pub fn from_code(machine: &JexMachine, chunk_id: usize) -> (function: Result<
        JexFunction,
        Exception,
    >)
        ensures
            match function {
                Ok(found) => function_of_chunk(machine_code(machine), chunk_id as nat) == Ok::<
                    FunctionView,
                    Fault,
                >(found@),
                Err(exception) => function_of_chunk(machine_code(machine), chunk_id as nat)
                    == Err::<FunctionView, Fault>(fault_of(exception)),
            },
    {
        let chunk = match get_chunk(code_of(machine), chunk_id) {
            Some(chunk) => chunk,
            None => {
                return Err(Exception::from(NotFoundChunkForFunction(chunk_id)));
            },
        };
        if chunk.constants.len() < 1 {
            return Err(Exception::from(InvalidFunctionChunk(chunk_id)));
        }
        let name = match chunk.constants[0].as_string() {
            Ok(name) => name,
            Err(exception) => {
                return Err(Exception::from(exception));
            },
        };
        if chunk.constants.len() < 2 {
            return Err(Exception::from(InvalidFunctionChunk(chunk_id)));
        }
        let read_arity = match chunk.constants[1].as_int() {
            Ok(arity) => arity,
            Err(exception) => {
                return Err(Exception::from(exception));
            },
        };
        if read_arity < 0 {
            Err(Exception::from(InvalidFunctionChunk(chunk_id)))
        } else {
            Ok(JexFunction::Function { chunk_id, name, arity: read_arity as usize })
        }
    }
}

impl JexInstance {
    /// `HashMap::new` in a `RefCell`: a new instance without fields. To the
    /// verifier an instance is its identity, of which nothing is promised.
    #[verifier::external_body]
    pub fn new() -> (instance: JexInstance) {
        JexInstance { fields: RefCell::new(HashMap::new()) }
    }

    /// `HashMap::is_empty` on the borrowed fields: whether no field was put
    /// yet. The fields are heap state that changes behind shared references,
    /// so the contract is silent on the answer.
    #[verifier::external_body]
    pub fn is_empty(&self) -> (empty: bool) {
        self.fields.borrow().is_empty()
    }

    /// `HashMap::get` on the borrowed fields, with the found value cloned:
    /// the value last put under `name`, if any. The contract is silent on
    /// the answer, as the fields are heap state.
    #[verifier::external_body]
    pub fn get_field(&self, name: &str) -> (field: Option<JexValue>) {
        self.fields.borrow().get(name).cloned()
    }

    /// `HashMap::insert` on the mutably borrowed fields: puts `value` under
    /// `name`, in place of what was there. Every handle to the instance sees
    /// the change; the identity of the instance stays.
    #[verifier::external_body]
    pub fn put_field(&self, name: String, value: JexValue) {
        self.fields.borrow_mut().insert(name, value);
    }
}

impl Default for JexInstance {
    /// A new instance without fields.
    fn default() -> (instance: Self) {
        JexInstance::new()
    }
}

impl PartialEq for JexObject {
    fn eq(&self, other: &Self) -> (equal: bool) {
        match (self, other) {
            (JexObject::String(left), JexObject::String(right)) => *left == *right,
        }
    }
}

impl vstd::std_specs::cmp::PartialEqSpecImpl for JexObject {
    open spec fn obeys_eq_spec() -> bool {
        true
    }

    open spec fn eq_spec(&self, other: &JexObject) -> bool {
        self@ == other@
    }
}

impl Clone for JexFunction {
    fn clone(&self) -> (copy: Self)
        ensures
            copy == *self,
    {
        match self {
            JexFunction::Script => JexFunction::Script,
            JexFunction::Function { arity, chunk_id, name } => JexFunction::Function {
                arity: *arity,
                chunk_id: *chunk_id,
                name: name.clone(),
            },
        }
    }
}

impl PartialEq for JexFunction {
    fn eq(&self, other: &Self) -> (equal: bool) {
        match (self, other) {
            (JexFunction::Script, JexFunction::Script) => true,
            (
                JexFunction::Function { arity: left_arity, chunk_id: left_chunk, name: left_name },
                JexFunction::Function {
                    arity: right_arity,
                    chunk_id: right_chunk,
                    name: right_name,
                },
            ) => *left_arity == *right_arity && *left_chunk == *right_chunk && *left_name
                == *right_name,
            _ => false,
        }
    }
}

impl vstd::std_specs::cmp::PartialEqSpecImpl for JexFunction {
    open spec fn obeys_eq_spec() -> bool {
        true
    }

    open spec fn eq_spec(&self, other: &JexFunction) -> bool {
        self@ == other@
    }
}

impl Eq for JexFunction {

}

impl Clone for JexValue {
    /// Copies a value slot. A heap object is shared, not copied: the clone
    /// of an instance is the same instance.
    fn clone(&self) -> (copy: Self)
        ensures
            copy == *self,
    {
        match self {
            JexValue::Null(null) => JexValue::Null(*null),
            JexValue::Int(i) => JexValue::Int(*i),
            JexValue::Bool(b) => JexValue::Bool(*b),
            JexValue::Object(object) => JexValue::Object(share(object)),
            JexValue::Instance(instance) => JexValue::Instance(share(instance)),
            JexValue::Function(function) => JexValue::Function(function.clone()),
        }
    }
}

impl PartialEq for JexValue {
    fn eq(&self, other: &Self) -> (equal: bool) {
        match (self, other) {
            (JexValue::Int(left), JexValue::Int(right)) => *left == *right,
            (JexValue::Bool(left), JexValue::Bool(right)) => *left == *right,
            (JexValue::Null(_), JexValue::Null(_)) => true,
            (JexValue::Object(left), JexValue::Object(right)) => (**left).eq(&**right),
            (JexValue::Function(left), JexValue::Function(right)) => left.eq(right),
            (JexValue::Instance(left), JexValue::Instance(right)) => same_instance(left, right),
            _ => false,
        }
    }

    fn ne(&self, other: &Self) -> (unequal: bool) {
        !self.eq(other)
    }
}

impl vstd::std_specs::cmp::PartialEqSpecImpl for JexValue {
    open spec fn obeys_eq_spec() -> bool {
        true
    }

    /// Two values are equal when they are of one variant and hold the same
    /// integer, boolean, characters or callable, or are the same instance.
    open spec fn eq_spec(&self, other: &JexValue) -> bool {
        self@ == other@
    }
}

/// Values of different variants are never equal.
pub proof fn values_of_different_kinds_differ(left: JexValue, right: JexValue)
    requires
        left.kind() != right.kind(),
    ensures
        !left.eq_spec(&right),
{
}

/// Two instance values are equal exactly when they hold the same instance,
/// whatever the fields of the two instances are.
pub proof fn instances_equal_by_identity(left: Rc<JexInstance>, right: Rc<JexInstance>)
    ensures
        JexValue::Instance(left).eq_spec(&JexValue::Instance(right)) <==> *left == *right,
{
}

/// A value equals each clone of itself: a cloned reference to an instance
/// is equal to the value it was cloned from.
pub proof fn clone_is_equal(value: JexValue, copy: JexValue)
    requires
        call_ensures(JexValue::clone, (&value,), copy),
    ensures
        value.eq_spec(&copy),
        copy.eq_spec(&value),
{
}

} // verus!
