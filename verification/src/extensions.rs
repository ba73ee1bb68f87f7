use vstd::prelude::*;

verus! {

broadcast use vstd::std_specs::vec::axiom_vec_index_decreases;

/// Errors reported by extension signature and memory-change computations.
#[derive(Clone, Copy, Debug, PartialEq, Eq, Structural)]
pub enum Error {
    WrongNumberOfTypeArgs,
    UnsupportedTypeArg,
    UnregisteredTypeName,
    IllegalRefValue,
    LocalMemoryNotAllocated,
    LocalMemoryAlreadyAllocated,
    LocalMemoryCantBeAllocated,
    CursorOverflow,
}

/// A concrete type name together with its template arguments.
#[derive(Debug, PartialEq, Eq)]
#[verifier::ext_equal]
pub struct Type {
    pub name: String,
    pub args: Vec<TemplateArg>,
}

/// A template argument: either a type or an integer value.
#[derive(Debug, PartialEq, Eq)]
#[verifier::ext_equal]
pub enum TemplateArg {
    Type(Type),
    Value(i64),
}

/// The signature of an extension: argument types and, per branch, result types.
/// `fallthrough` names the branch that continues to the next statement.
#[derive(Debug, PartialEq, Eq)]
pub struct ExtensionSignature {
    pub args: Vec<Type>,
    pub results: Vec<Vec<Type>>,
    pub fallthrough: Option<usize>,
}

/// Where a value lives relative to the frame: temporary or local slots.
#[derive(Clone, Copy, Debug, PartialEq, Eq, Structural)]
pub enum MemLocation {
    Temp(i64),
    Local(i64),
}

/// An arithmetic operation applied to a reference value.
#[derive(Clone, Copy, Debug, PartialEq, Eq, Structural)]
pub enum Op {
    Add,
    Sub,
}

/// How a result value is referenced after an extension runs.
#[derive(Clone, Copy, Debug, PartialEq, Eq, Structural)]
pub enum RefValue {
    Transient,
    Final(MemLocation),
    OpWithConst(MemLocation, Op, i64),
}

/// Cursor state of the frame while memory changes are simulated.
#[derive(Clone, Copy, Debug, PartialEq, Eq, Structural)]
pub struct Context {
    pub local_cursur: usize,
    pub temp_cursur: usize,
    pub local_allocated: bool,
    pub temp_used: bool,
}

/// The size, in cells, that values of a type occupy.
#[derive(Clone, Copy, Debug, PartialEq, Eq, Structural)]
pub struct TypeInfo {
    pub size: usize,
}

/// True when `t` is the given name applied to no arguments.
pub open spec fn is_plain_type(t: Type, name: Seq<char>) -> bool {
    t.name@ == name && t.args@.len() == 0
}

/// True when `t` is the gas-builtin type.
pub open spec fn is_gas_builtin(t: Type) -> bool {
    is_plain_type(t, "GasBuiltin"@)
}

/// True when `t` is the gas type carrying amount `v`.
pub open spec fn is_gas_type(t: Type, v: i64) -> bool {
    t.name@ == "Gas"@ && t.args@.len() == 1 && t.args@[0] == TemplateArg::Value(v)
}

/// True when `d` is the deferred wrapper around `inner`.
pub open spec fn is_deferred(d: Type, inner: Type) -> bool {
    d.name@ == "Deferred"@ && d.args@.len() == 1 && d.args@[0] == TemplateArg::Type(inner)
}

/// True when `d` is the deferred wrapper around the gas builtin.
pub open spec fn is_deferred_gas_builtin(d: Type) -> bool {
    d.name@ == "Deferred"@ && d.args@.len() == 1 && (d.args@[0] matches TemplateArg::Type(t)
        && is_gas_builtin(t))
}

/// True when every template argument is a value.
pub open spec fn all_values(s: Seq<TemplateArg>) -> bool {
    forall|i: int| 0 <= i < s.len() ==> #[trigger] s[i] matches TemplateArg::Value(_)
}

/// True when every template argument is a positive value.
pub open spec fn all_pos_values(s: Seq<TemplateArg>) -> bool {
    forall|i: int| 0 <= i < s.len() ==> (#[trigger] s[i] matches TemplateArg::Value(v) && v > 0)
}

/// The sum of all value arguments; type arguments count as zero.
pub open spec fn sum_vals(s: Seq<TemplateArg>) -> int
    decreases s.len(),
{
    if s.len() == 0 {
        0
    } else {
        sum_vals(s.drop_last()) + match s.last() {
            TemplateArg::Value(v) => v as int,
            TemplateArg::Type(_) => 0int,
        }
    }
}

/// True when no running sum over a prefix of value arguments leaves `i64`.
pub open spec fn prefix_sums_fit(s: Seq<TemplateArg>) -> bool {
    forall|k: int|
        0 <= k <= s.len() && all_values(#[trigger] s.take(k)) ==> i64::MIN <= sum_vals(s.take(k))
            <= i64::MAX
}

/// Computes what a type implementation reports of a type's layout.
pub trait TypeInfoImplementation {
    fn get_info(&self, tmpl_args: &Vec<TemplateArg>) -> Result<TypeInfo, Error>;
}

/// A type implementation behind dynamic dispatch.
pub type TypeInfoBox = Box<dyn TypeInfoImplementation>;

/// Maps type names to their registered implementations.
pub struct TypeRegistry {
    pub entries: Vec<(String, TypeInfoBox)>,
}

/// Computes signatures and memory changes of one named extension.
pub trait ExtensionImplementation {
    fn get_signature(&self, tmpl_args: &Vec<TemplateArg>) -> Result<ExtensionSignature, Error>;

    fn mem_change(
        &self,
        tmpl_args: &Vec<TemplateArg>,
        registry: &TypeRegistry,
        context: Context,
        arg_refs: Vec<RefValue>,
    ) -> Result<Vec<(Context, Vec<RefValue>)>, Error>;
}

/// An extension behind dynamic dispatch.
pub type ExtensionBox = Box<dyn ExtensionImplementation>;

/// Builds the signature of a plain invocation: one branch, fallthrough to it.
pub fn simple_invoke_ext_sign(args: Vec<Type>, results: Vec<Type>) -> (s: ExtensionSignature)
    ensures
        s.args == args,
        s.results@.len() == 1,
        s.results@[0] == results,
        s.fallthrough == Some(0usize),
{
    let mut branches: Vec<Vec<Type>> = Vec::new();
    branches.push(results);
    ExtensionSignature { args, results: branches, fallthrough: Some(0) }
}

/// Extracts the single type argument, rejecting any other argument list.
pub fn single_type_arg(tmpl_args: &Vec<TemplateArg>) -> (r: Result<&Type, Error>)
    ensures
        match r {
            Ok(t) => tmpl_args@.len() == 1 && tmpl_args@[0] == TemplateArg::Type(*t),
            Err(e) => (e == Error::WrongNumberOfTypeArgs && tmpl_args@.len() != 1) || (
            e == Error::UnsupportedTypeArg && tmpl_args@.len() == 1 && tmpl_args@[0] matches
                TemplateArg::Value(_)),
        },
{
    if tmpl_args.len() != 1 {
        return Err(Error::WrongNumberOfTypeArgs);
    }
    match &tmpl_args[0] {
        TemplateArg::Type(ty) => Ok(ty),
        TemplateArg::Value(_) => Err(Error::UnsupportedTypeArg),
    }
}

/// Structural equivalence of template arguments, comparing strings by
/// their characters.
pub open spec fn targ_like(a: TemplateArg, b: TemplateArg) -> bool
    decreases a,
{
    match a {
        TemplateArg::Value(x) => b matches TemplateArg::Value(y) && x == y,
        TemplateArg::Type(t) => b matches TemplateArg::Type(u) && type_like(t, u),
    }
}

/// Structural equivalence of types, comparing strings by their characters.
pub open spec fn type_like(a: Type, b: Type) -> bool
    decreases a,
{
    &&& a.name@ == b.name@
    &&& a.args@.len() == b.args@.len()
    &&& forall|i: int| 0 <= i < a.args@.len() ==> targ_like(#[trigger] a.args@[i], b.args@[i])
}

/// Copies a type, leaving the original in place.
pub fn dup_type(t: &Type) -> (r: Type)
    ensures
        type_like(r, *t),
    decreases *t,
{
    let mut args: Vec<TemplateArg> = Vec::new();
    let n: usize = t.args.len();
    let mut i: usize = 0;
    while i < n
        invariant
            n == t.args@.len(),
            i <= n,
            args@.len() == i,
            forall|j: int| 0 <= j < i ==> targ_like(#[trigger] args@[j], t.args@[j]),
        decreases n - i,
    {
        args.push(dup_targ(&t.args[i]));
        i += 1;
    }
    Type { name: t.name.clone(), args }
}

/// Copies a template argument, leaving the original in place.
pub fn dup_targ(a: &TemplateArg) -> (r: TemplateArg)
    ensures
        targ_like(r, *a),
    decreases *a,
{
    match a {
        TemplateArg::Value(v) => TemplateArg::Value(*v),
        TemplateArg::Type(t) => TemplateArg::Type(dup_type(t)),
    }
}

/// Extracts the location of a reference that must already be final.
pub fn as_final(ref_value: &RefValue) -> (r: Result<MemLocation, Error>)
    ensures
        match r {
            Ok(loc) => *ref_value == RefValue::Final(loc),
            Err(e) => e == Error::IllegalRefValue && !(*ref_value matches RefValue::Final(_)),
        },
{
    match ref_value {
        RefValue::Final(loc) => Ok(*loc),
        _ => Err(Error::IllegalRefValue),
    }
}

/// True when the registry holds no entry named `name` before index `i`.
pub open spec fn no_entry_before(entries: Seq<(String, TypeInfoBox)>, name: Seq<char>, i: int) -> bool {
    forall|j: int| 0 <= j < i ==> entries[j].0@ != name
}

/// Looks a type's name up in the registry and asks the found implementation
/// for the layout of `ty.args`. What the implementation answers is its own.
pub fn get_info(registry: &TypeRegistry, ty: &Type) -> (r: Result<TypeInfo, Error>)
    ensures
        no_entry_before(registry.entries@, ty.name@, registry.entries@.len() as int) ==> r == Err::<
            TypeInfo,
            Error,
        >(Error::UnregisteredTypeName),
{
    let n: usize = registry.entries.len();
    let mut i: usize = 0;
    while i < n
        invariant
            n == registry.entries@.len(),
            i <= n,
            no_entry_before(registry.entries@, ty.name@, i as int),
        decreases n - i,
    {
        if registry.entries[i].0 == ty.name {
            return registry.entries[i].1.get_info(&ty.args);
        }
        i += 1;
    }
    Err(Error::UnregisteredTypeName)
}

} // verus!
