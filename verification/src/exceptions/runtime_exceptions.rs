//! Faults of a running program.

use crate::runtime::{fault_of, Fault};
use crate::values::get_type::GetType;
use crate::values::values::JexValue;
use extendable_vm::{Exception, ExceptionType};
use vstd::prelude::*;
use vstd::string::StringExecFns;

verus! {

/// A value is not of the type that an instruction needs. The message says
/// which value and which type.
#[derive(Debug)]
pub struct TypeException(pub String);

/// The code of a chunk ends where an instruction expects its argument.
#[derive(Debug)]
pub struct ExpectedInstructionArgument;

/// A unary operator was applied to a value of a type that it has no meaning
/// for.
pub struct UnaryOperatorNotDefined {
    operator_name: &'static str,
    operand_type: String,
}

/// A binary operator was applied to values of types that it has no meaning
/// for.
pub struct OperatorNotDefined {
    operator_name: &'static str,
    left_type: String,
    right_type: String,
}

/// An instance has no field of the given name.
#[derive(Debug)]
pub struct FieldNotFound(pub String);

/// A field was read or written on a value that is no instance.
pub struct NotObjectException {
    receiver_type: String,
}

/// A jump would take the instruction pointer below zero or beyond the
/// largest address.
#[derive(Debug)]
pub struct IllegalJump;

/// An integer was divided by zero.
#[derive(Debug)]
pub struct DivisionByZero;

impl TypeException {
    /// The fault of a type exception with the given message.
    pub open spec fn message_fault(message: Seq<char>) -> Fault {
        Fault { severity: ExceptionType::Runtime, name: "TypeException"@, message }
    }

    /// What the fault of this exception tells.
    pub open spec fn fault(self) -> Fault {
        Self::message_fault(self.0@)
    }
}

impl ExpectedInstructionArgument {
    /// What the fault of this exception tells.
    pub open spec fn fault(self) -> Fault {
        Fault {
            severity: ExceptionType::Runtime,
            name: "ExpectedInstructionArgument"@,
            message: "Expected an instruction argument but chunk code ended."@,
        }
    }
}

impl UnaryOperatorNotDefined {
    /// The name of the operator.
    pub closed spec fn operator(self) -> Seq<char> {
        self.operator_name@
    }

    /// The name of the operand's type.
    pub closed spec fn operand(self) -> Seq<char> {
        self.operand_type@
    }

    /// The fault of the operator `operator` applied to an operand of the
    /// type `operand`.
    pub open spec fn fault_for(operator: Seq<char>, operand: Seq<char>) -> Fault {
        Fault {
            severity: ExceptionType::Runtime,
            name: "UnaryOperatorNotDefined"@,
            message: "Unary operator "@ + operator + " is not defined for type "@ + operand,
        }
    }

    /// What the fault of this exception tells.
    pub open spec fn fault(self) -> Fault {
        Self::fault_for(self.operator(), self.operand())
    }

    /// The exception of the operator on the operand, of which it keeps the
    /// type.
    pub fn new(operator_name: &'static str, operand: &JexValue) -> (exception:
        UnaryOperatorNotDefined)
        ensures
            exception.operator() == operator_name@,
            exception.operand() == operand.name_of_type(),
    {
        UnaryOperatorNotDefined { operator_name, operand_type: operand.get_type() }
    }
}

impl OperatorNotDefined {
    /// The name of the operator.
    pub closed spec fn operator(self) -> Seq<char> {
        self.operator_name@
    }

    /// The name of the left operand's type.
    pub closed spec fn left(self) -> Seq<char> {
        self.left_type@
    }

    /// The name of the right operand's type.
    pub closed spec fn right(self) -> Seq<char> {
        self.right_type@
    }

    /// The fault of the operator `operator` applied to operands of the
    /// types `left` and `right`.
    pub open spec fn fault_for(operator: Seq<char>, left: Seq<char>, right: Seq<char>) -> Fault {
        Fault {
            severity: ExceptionType::Runtime,
            name: "OperatorUndefined"@,
            message: "Binary operator "@ + operator + " is not defined for types "@ + left
                + " and "@ + right,
        }
    }

    /// What the fault of this exception tells.
    pub open spec fn fault(self) -> Fault {
        Self::fault_for(self.operator(), self.left(), self.right())
    }

    /// The exception of the operator on the two operands, of which it keeps
    /// the types.
    pub fn new(operator_name: &'static str, left: &JexValue, right: &JexValue) -> (exception:
        OperatorNotDefined)
        ensures
            exception.operator() == operator_name@,
            exception.left() == left.name_of_type(),
            exception.right() == right.name_of_type(),
    {
        OperatorNotDefined {
            operator_name,
            left_type: left.get_type(),
            right_type: right.get_type(),
        }
    }
}

impl FieldNotFound {
    /// The fault of a missing field of the given name.
    pub open spec fn fault_for(field: Seq<char>) -> Fault {
        Fault {
            severity: ExceptionType::Runtime,
            name: "FieldNotFound"@,
            message: "Field "@ + field + " of object not found"@,
        }
    }

    /// What the fault of this exception tells.
    pub open spec fn fault(self) -> Fault {
        Self::fault_for(self.0@)
    }
}

impl NotObjectException {
    /// The name of the receiver's type.
    pub closed spec fn receiver(self) -> Seq<char> {
        self.receiver_type@
    }

    /// The fault of a receiver of the type `receiver`.
    pub open spec fn fault_for(receiver: Seq<char>) -> Fault {
        Fault {
            severity: ExceptionType::Runtime,
            name: "NotObjectException"@,
            message: "Value of type "@ + receiver + " is not an object"@,
        }
    }

    /// What the fault of this exception tells.
    pub open spec fn fault(self) -> Fault {
        Self::fault_for(self.receiver())
    }

    /// The exception of the receiver, of which it keeps the type.
    pub fn new(receiver: &JexValue) -> (exception: NotObjectException)
        ensures
            exception.receiver() == receiver.name_of_type(),
    {
        NotObjectException { receiver_type: receiver.get_type() }
    }
}

impl IllegalJump {
    /// What the fault of this exception tells.
    pub open spec fn fault(self) -> Fault {
        Fault {
            severity: ExceptionType::Runtime,
            name: "IllegalJump"@,
            message: "Jump leaves the addressable code"@,
        }
    }
}

impl DivisionByZero {
    /// What the fault of this exception tells.
    pub open spec fn fault(self) -> Fault {
        Fault {
            severity: ExceptionType::Runtime,
            name: "DivisionByZero"@,
            message: "Division by zero"@,
        }
    }
}

impl From<DivisionByZero> for Exception {
    fn from(exception: DivisionByZero) -> (fault: Exception)
        ensures
            fault_of(fault) == exception.fault(),
    {
        Exception {
            exception_type: ExceptionType::Runtime,
            name: String::from_str("DivisionByZero"),
            message: String::from_str("Division by zero"),
        }
    }
}

impl vstd::std_specs::convert::FromSpecImpl<DivisionByZero> for Exception {
    open spec fn obeys_from_spec() -> bool {
        false
    }

    open spec fn from_spec(exception: DivisionByZero) -> Exception {
        arbitrary()
    }
}

impl From<TypeException> for Exception {
    fn from(exception: TypeException) -> (fault: Exception)
        ensures
            fault_of(fault) == exception.fault(),
    {
        Exception {
            exception_type: ExceptionType::Runtime,
            name: String::from_str("TypeException"),
            message: exception.0,
        }
    }
}

impl vstd::std_specs::convert::FromSpecImpl<TypeException> for Exception {
    open spec fn obeys_from_spec() -> bool {
        false
    }

    open spec fn from_spec(exception: TypeException) -> Exception {
        arbitrary()
    }
}

impl From<ExpectedInstructionArgument> for Exception {
    fn from(exception: ExpectedInstructionArgument) -> (fault: Exception)
        ensures
            fault_of(fault) == exception.fault(),
    {
        Exception {
            exception_type: ExceptionType::Runtime,
            name: String::from_str("ExpectedInstructionArgument"),
            message: String::from_str("Expected an instruction argument but chunk code ended."),
        }
    }
}

impl vstd::std_specs::convert::FromSpecImpl<ExpectedInstructionArgument> for Exception {
    open spec fn obeys_from_spec() -> bool {
        false
    }

    open spec fn from_spec(exception: ExpectedInstructionArgument) -> Exception {
        arbitrary()
    }
}

impl From<UnaryOperatorNotDefined> for Exception {
    fn from(exception: UnaryOperatorNotDefined) -> (fault: Exception)
        ensures
            fault_of(fault) == exception.fault(),
    {
        let mut message = String::from_str("Unary operator ");
        message.append(exception.operator_name);
        message.append(" is not defined for type ");
        message.append(exception.operand_type.as_str());
        Exception {
            exception_type: ExceptionType::Runtime,
            name: String::from_str("UnaryOperatorNotDefined"),
            message,
        }
    }
}

impl vstd::std_specs::convert::FromSpecImpl<UnaryOperatorNotDefined> for Exception {
    open spec fn obeys_from_spec() -> bool {
        false
    }

    open spec fn from_spec(exception: UnaryOperatorNotDefined) -> Exception {
        arbitrary()
    }
}

impl From<OperatorNotDefined> for Exception {
    fn from(exception: OperatorNotDefined) -> (fault: Exception)
        ensures
            fault_of(fault) == exception.fault(),
    {
        let mut message = String::from_str("Binary operator ");
        message.append(exception.operator_name);
        message.append(" is not defined for types ");
        message.append(exception.left_type.as_str());
        message.append(" and ");
        message.append(exception.right_type.as_str());
        Exception {
            exception_type: ExceptionType::Runtime,
            name: String::from_str("OperatorUndefined"),
            message,
        }
    }
}

impl vstd::std_specs::convert::FromSpecImpl<OperatorNotDefined> for Exception {
    open spec fn obeys_from_spec() -> bool {
        false
    }

    open spec fn from_spec(exception: OperatorNotDefined) -> Exception {
        arbitrary()
    }
}

impl From<FieldNotFound> for Exception {
    fn from(exception: FieldNotFound) -> (fault: Exception)
        ensures
            fault_of(fault) == exception.fault(),
    {
        let mut message = String::from_str("Field ");
        message.append(exception.0.as_str());
        message.append(" of object not found");
        Exception {
            exception_type: ExceptionType::Runtime,
            name: String::from_str("FieldNotFound"),
            message,
        }
    }
}

impl vstd::std_specs::convert::FromSpecImpl<FieldNotFound> for Exception {
    open spec fn obeys_from_spec() -> bool {
        false
    }

    open spec fn from_spec(exception: FieldNotFound) -> Exception {
        arbitrary()
    }
}

impl From<NotObjectException> for Exception {
    fn from(exception: NotObjectException) -> (fault: Exception)
        ensures
            fault_of(fault) == exception.fault(),
    {
        let mut message = String::from_str("Value of type ");
        message.append(exception.receiver_type.as_str());
        message.append(" is not an object");
        Exception {
            exception_type: ExceptionType::Runtime,
            name: String::from_str("NotObjectException"),
            message,
        }
    }
}

impl vstd::std_specs::convert::FromSpecImpl<NotObjectException> for Exception {
    open spec fn obeys_from_spec() -> bool {
        false
    }

    open spec fn from_spec(exception: NotObjectException) -> Exception {
        arbitrary()
    }
}

impl From<IllegalJump> for Exception {
    fn from(exception: IllegalJump) -> (fault: Exception)
        ensures
            fault_of(fault) == exception.fault(),
    {
        Exception {
            exception_type: ExceptionType::Runtime,
            name: String::from_str("IllegalJump"),
            message: String::from_str("Jump leaves the addressable code"),
        }
    }
}

impl vstd::std_specs::convert::FromSpecImpl<IllegalJump> for Exception {
    open spec fn obeys_from_spec() -> bool {
        false
    }

    open spec fn from_spec(exception: IllegalJump) -> Exception {
        arbitrary()
    }
}

} // verus!
