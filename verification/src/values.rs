//! Scalar values and function signatures exchanged across the host-guest
//! boundary.
//!
//! Calls across the boundary pass parameters by value: 32-bit or 64-bit
//! integers in the cases this library covers. An exported or imported
//! function has a fixed signature (parameter types and result types); there
//! is no overloading, so a caller's expected signature must match the
//! declared one exactly.
use vstd::prelude::*;

verus! {

/// The type of a scalar that can cross the boundary.
#[derive(Clone, Copy, Debug, PartialEq, Eq, Structural)]
pub enum ValueType {
    I32,
    I64,
}

/// A scalar crossing the boundary, passed by value in both directions.
#[derive(Clone, Copy, Debug, PartialEq, Eq, Structural)]
pub enum Value {
    I32(i32),
    I64(i64),
}

/// The type tag of a scalar value.
pub open spec fn type_of_value(v: Value) -> ValueType {
    match v {
        Value::I32(_) => ValueType::I32,
        Value::I64(_) => ValueType::I64,
    }
}

impl Value {
    /// The type of this value.
    pub fn value_type(&self) -> (t: ValueType)
        ensures
            t == type_of_value(*self),
    {
        match self {
            Value::I32(_) => ValueType::I32,
            Value::I64(_) => ValueType::I64,
        }
    }
}

/// The fixed parameter and result types of a function at the boundary.
#[derive(Debug)]
pub struct Signature {
    pub params: Vec<ValueType>,
    pub results: Vec<ValueType>,
}

/// Two signatures agree when their parameter and result types agree
/// position by position.
pub open spec fn signature_eq(a: Signature, b: Signature) -> bool {
    a.params@ == b.params@ && a.results@ == b.results@
}

/// Position-by-position comparison of two lists of value types.
fn type_lists_eq(a: &Vec<ValueType>, b: &Vec<ValueType>) -> (r: bool)
    ensures
        r == (a@ == b@),
{
    if a.len() != b.len() {
        return false;
    }
    let n = a.len();
    let mut i: usize = 0;
    while i < n
        invariant
            n == a@.len(),
            n == b@.len(),
            i <= n,
            forall|k: int| 0 <= k < i ==> a@[k] == b@[k],
        decreases n - i,
    {
        if a[i] != b[i] {
            return false;
        }
        i = i + 1;
    }
    proof {
        assert(a@ =~= b@);
    }
    true
}

impl Signature {
    /// Whether this signature matches another exactly, in arity and in
    /// every parameter and result type.
    pub fn matches(&self, other: &Signature) -> (r: bool)
        ensures
            r == signature_eq(*self, *other),
    {
        type_lists_eq(&self.params, &other.params) && type_lists_eq(&self.results, &other.results)
    }

    /// Whether a list of argument values fits the parameter types of this
    /// signature, in arity and position by position.
    pub fn accepts_arguments(&self, args: &Vec<Value>) -> (r: bool)
        ensures
            r == arguments_fit(args@, self.params@),
    {
        if args.len() != self.params.len() {
            return false;
        }
        let n = args.len();
        let mut i: usize = 0;
        while i < n
            invariant
                n == args@.len(),
                n == self.params@.len(),
                i <= n,
                forall|k: int| 0 <= k < i ==> type_of_value(args@[k]) == self.params@[k],
            decreases n - i,
        {
            if args[i].value_type() != self.params[i] {
                return false;
            }
            i = i + 1;
        }
        true
    }
}

/// Argument values fit a parameter list when the arities agree and each
/// value carries the declared type.
pub open spec fn arguments_fit(args: Seq<Value>, params: Seq<ValueType>) -> bool {
    args.len() == params.len() && (forall|k: int|
        0 <= k < args.len() ==> type_of_value(args[k]) == params[k])
}

} // verus!
