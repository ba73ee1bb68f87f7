use vstd::prelude::*;
use crate::extensions::{is_deferred, is_gas_builtin, is_gas_type, TemplateArg, Type};

verus! {

/// Copies a borrowed string slice into an owned string.
pub(crate) fn mk_string(s: &str) -> (r: String)
    ensures
        r@ == s@,
{
    s.to_string()
}

/// The type applied to no arguments under the given name.
pub fn as_type(name: &str) -> (t: Type)
    ensures
        t.name@ == name@,
        t.args@.len() == 0,
{
    Type { name: mk_string(name), args: Vec::new() }
}

/// The builtin that meters gas.
pub fn gas_builtin_type() -> (t: Type)
    ensures
        is_gas_builtin(t),
{
    as_type("GasBuiltin")
}

/// The gas type carrying amount `v`.
pub fn gas_type(v: i64) -> (t: Type)
    ensures
        is_gas_type(t, v),
{
    let mut args: Vec<TemplateArg> = Vec::new();
    args.push(TemplateArg::Value(v));
    Type { name: mk_string("Gas"), args }
}

/// Wraps a type to mark its value as not yet stored.
pub fn as_deferred(ty: Type) -> (t: Type)
    ensures
        is_deferred(t, ty),
{
    let mut args: Vec<TemplateArg> = Vec::new();
    args.push(TemplateArg::Type(ty));
    Type { name: mk_string("Deferred"), args }
}

/// A template argument holding a type.
pub fn type_arg(ty: Type) -> (r: TemplateArg)
    ensures
        r == TemplateArg::Type(ty),
{
    TemplateArg::Type(ty)
}

/// A template argument holding a value.
pub fn val_arg(v: i64) -> (r: TemplateArg)
    ensures
        r == TemplateArg::Value(v),
{
    TemplateArg::Value(v)
}

} // verus!
