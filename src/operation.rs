use vstd::prelude::*;

verus! {

/// Operations to be performed on the data of an array, one compute shader each.
#[allow(non_camel_case_types, clippy::upper_case_acronyms)]
#[derive(Debug, Clone, Copy, PartialEq, Eq, Structural)]
pub enum Operation {
    DOUBLE,
    ADD,
    SUBTRACT,
    MULTIPLY,
    DIVIDE,
}

/// The shader-registry key of an operation.
pub open spec fn op_key(op: Operation) -> Seq<char> {
    match op {
        Operation::DOUBLE => seq!['d', 'o', 'u', 'b', 'l', 'e'],
        Operation::ADD => seq!['a', 'd', 'd'],
        Operation::SUBTRACT => seq!['s', 'u', 'b', 't', 'r', 'a', 'c', 't'],
        Operation::MULTIPLY => seq!['m', 'u', 'l', 't', 'i', 'p', 'l', 'y'],
        Operation::DIVIDE => seq!['d', 'i', 'v', 'i', 'd', 'e'],
    }
}

/// The name under which the shader of `op` is registered.
pub fn decode_operation(op: Operation) -> (r: &'static str)
    ensures
        r@ == op_key(op),
{
    proof {
        reveal_strlit("double");
        reveal_strlit("add");
        reveal_strlit("subtract");
        reveal_strlit("multiply");
        reveal_strlit("divide");
    }
    match op {
        Operation::DOUBLE => "double",
        Operation::ADD => "add",
        Operation::SUBTRACT => "subtract",
        Operation::MULTIPLY => "multiply",
        Operation::DIVIDE => "divide",
    }
}

} // verus!
