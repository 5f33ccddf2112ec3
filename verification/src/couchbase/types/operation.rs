//! Storage modes of a store command.

use vstd::prelude::*;

verus! {

/// How a store command treats an existing document (`lcb_storage_t`).
#[derive(Debug, Clone, Copy, PartialEq, Eq, Structural)]
pub enum Operation {
    /// The default storage mode. Behaviorally it is identical to `SetItem` in that
    /// it makes the server unconditionally store the item, whether it exists or not.
    Upsert,
    /// Fails if the key already exists in the cluster.
    Add,
    /// Fails _unless_ the key already exists in the cluster.
    Replace,
    /// Unconditionally stores the item in the cluster.
    SetItem,
    /// Appends the given value to the bytes of the existing value instead of replacing it.
    Append,
    /// Like `Append`, but prepends the new value to the existing value.
    Prepend,
}

/// The number that libcouchbase uses for each `Operation`.
pub open spec fn operation_code(x: Operation) -> u32 {
    match x {
        Operation::Upsert => 0,
        Operation::Add => 1,
        Operation::Replace => 2,
        Operation::SetItem => 3,
        Operation::Append => 4,
        Operation::Prepend => 5,
    }
}

/// The `Operation` that libcouchbase means by a number, if any.
pub open spec fn operation_code_inverse(code: u32) -> Option<Operation> {
    match code {
        0 => Some(Operation::Upsert),
        1 => Some(Operation::Add),
        2 => Some(Operation::Replace),
        3 => Some(Operation::SetItem),
        4 => Some(Operation::Append),
        5 => Some(Operation::Prepend),
        _ => None,
    }
}

impl Operation {
    /// The number that libcouchbase uses for this value.
    pub fn code(&self) -> (c: u32)
        ensures
            c == operation_code(*self),
    {
        match self {
            Operation::Upsert => 0,
            Operation::Add => 1,
            Operation::Replace => 2,
            Operation::SetItem => 3,
            Operation::Append => 4,
            Operation::Prepend => 5,
        }
    }

    /// The value that libcouchbase reports under `code`, if any.
    pub fn from_code(code: u32) -> (x: Option<Operation>)
        ensures
            x == operation_code_inverse(code),
    {
        match code {
            0 => Some(Operation::Upsert),
            1 => Some(Operation::Add),
            2 => Some(Operation::Replace),
            3 => Some(Operation::SetItem),
            4 => Some(Operation::Append),
            5 => Some(Operation::Prepend),
            _ => None,
        }
    }
}

/// Reading back the code of a `Operation` gives that value, and a number
/// that names a value is that value's code.
pub proof fn lemma_operation_code_roundtrip(x: Operation, code: u32)
    ensures
        operation_code_inverse(operation_code(x)) == Some(x),
        operation_code_inverse(code) matches Some(y) ==> operation_code(y) == code,
{
}

/// The numbers libcouchbase assigns to its storage modes (`lcb_storage_t`).
pub proof fn lemma_operation_code_table()
    ensures
        operation_code(Operation::Upsert) == 0,
        operation_code(Operation::Add) == 1,
        operation_code(Operation::Replace) == 2,
        operation_code(Operation::SetItem) == 3,
        operation_code(Operation::Append) == 4,
        operation_code(Operation::Prepend) == 5,
{
}

} // verus!
