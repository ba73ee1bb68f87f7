use vstd::prelude::*;
use crate::extensions::{
    all_pos_values, all_values, as_final, is_deferred_gas_builtin, is_gas_builtin, is_gas_type,
    prefix_sums_fit, simple_invoke_ext_sign, sum_vals, Context, Error, ExtensionBox,
    ExtensionImplementation, ExtensionSignature, Op, RefValue, TemplateArg, TypeInfo, TypeInfoBox,
    TypeInfoImplementation, TypeRegistry,
};
use crate::utils::{as_deferred, gas_builtin_type, gas_type, mk_string};

verus! {

/// Branches on whether enough gas is left; success returns the requested
/// gas amounts, failure returns the unchanged gas builtin.
pub struct GetGasExtension {}

impl GetGasExtension {
    /// One gas amount per value argument on success; the gas builtin comes
    /// back deferred on the success branch and plain on the failure branch.
    pub fn get_signature(&self, tmpl_args: &Vec<TemplateArg>) -> (r: Result<
        ExtensionSignature,
        Error,
    >)
        ensures
            tmpl_args@.len() == 0 ==> r == Err::<ExtensionSignature, Error>(
                Error::WrongNumberOfTypeArgs,
            ),
            tmpl_args@.len() > 0 && !all_values(tmpl_args@) ==> r == Err::<
                ExtensionSignature,
                Error,
            >(Error::UnsupportedTypeArg),
            tmpl_args@.len() > 0 && all_values(tmpl_args@) ==> (r matches Ok(sig) && {
                &&& sig.args@.len() == 2
                &&& is_gas_builtin(sig.args@[0])
                &&& is_gas_type(sig.args@[1], 1)
                &&& sig.results@.len() == 2
                &&& sig.results@[0]@.len() == 1 + tmpl_args@.len()
                &&& is_deferred_gas_builtin(sig.results@[0]@[0])
                &&& forall|j: int|
                    1 <= j < sig.results@[0]@.len() ==> is_gas_type(
                        #[trigger] sig.results@[0]@[j],
                        tmpl_args@[j - 1]->Value_0,
                    )
                &&& sig.results@[1]@.len() == 1
                &&& is_gas_builtin(sig.results@[1]@[0])
                &&& sig.fallthrough == Some(1usize)
            }),
    {
        if tmpl_args.len() == 0 {
            return Err(Error::WrongNumberOfTypeArgs);
        }
        let mut success_types: Vec<crate::extensions::Type> = Vec::new();
        success_types.push(as_deferred(gas_builtin_type()));
        let n: usize = tmpl_args.len();
        let mut i: usize = 0;
        while i < n
            invariant
                n == tmpl_args@.len(),
                i <= n,
                success_types@.len() == 1 + i,
                is_deferred_gas_builtin(success_types@[0]),
                forall|j: int|
                    1 <= j < success_types@.len() ==> is_gas_type(
                        #[trigger] success_types@[j],
                        tmpl_args@[j - 1]->Value_0,
                    ),
                forall|j: int| 0 <= j < i ==> #[trigger] tmpl_args@[j] matches TemplateArg::Value(_),
            decreases n - i,
        {
            match &tmpl_args[i] {
                TemplateArg::Value(v) => {
                    success_types.push(gas_type(*v));
                },
                TemplateArg::Type(_) => {
                    return Err(Error::UnsupportedTypeArg);
                },
            }
            i += 1;
        }
        let mut args: Vec<crate::extensions::Type> = Vec::new();
        args.push(gas_builtin_type());
        args.push(gas_type(1));
        let mut failure_types: Vec<crate::extensions::Type> = Vec::new();
        failure_types.push(gas_builtin_type());
        let mut results: Vec<Vec<crate::extensions::Type>> = Vec::new();
        results.push(success_types);
        results.push(failure_types);
        Ok(ExtensionSignature { args, results, fallthrough: Some(1) })
    }

    /// On success the gas builtin advances by the sum of the requested
    /// amounts and every requested amount is transient; on failure the
    /// original reference passes through.
    pub fn mem_change(
        &self,
        tmpl_args: &Vec<TemplateArg>,
        _registry: &TypeRegistry,
        context: Context,
        arg_refs: Vec<RefValue>,
    ) -> (r: Result<Vec<(Context, Vec<RefValue>)>, Error>)
        requires
            arg_refs@.len() >= 1,
            prefix_sums_fit(tmpl_args@),
        ensures
            !all_pos_values(tmpl_args@) ==> r == Err::<Vec<(Context, Vec<RefValue>)>, Error>(
                Error::UnsupportedTypeArg,
            ),
            all_pos_values(tmpl_args@) && !(arg_refs@[0] matches RefValue::Final(_)) ==> r == Err::<
                Vec<(Context, Vec<RefValue>)>,
                Error,
            >(Error::IllegalRefValue),
            all_pos_values(tmpl_args@) ==> (arg_refs@[0] matches RefValue::Final(loc) ==> (r matches
                Ok(branches) && {
                &&& branches@.len() == 2
                &&& branches@[0].0 == context
                &&& branches@[0].1@.len() == 1 + tmpl_args@.len()
                &&& branches@[0].1@[0] == RefValue::OpWithConst(loc, Op::Add, sum_vals(
                    tmpl_args@,
                ) as i64)
                &&& sum_vals(tmpl_args@) <= i64::MAX
                &&& forall|j: int|
                    1 <= j < branches@[0].1@.len() ==> #[trigger] branches@[0].1@[j]
                        == RefValue::Transient
                &&& branches@[1].0 == context
                &&& branches@[1].1@.len() == 1
                &&& branches@[1].1@[0] == arg_refs@[0]
            })),
    {
        let mut total_gas: i64 = 0;
        let mut success_refs: Vec<RefValue> = Vec::new();
        success_refs.push(RefValue::Transient);
        let n: usize = tmpl_args.len();
        let mut i: usize = 0;
        while i < n
            invariant
                n == tmpl_args@.len(),
                i <= n,
                prefix_sums_fit(tmpl_args@),
                all_pos_values(tmpl_args@.take(i as int)),
                total_gas as int == sum_vals(tmpl_args@.take(i as int)),
                success_refs@.len() == 1 + i,
                forall|j: int| 0 <= j < success_refs@.len() ==> success_refs@[j]
                    == RefValue::Transient,
            decreases n - i,
        {
            match &tmpl_args[i] {
                TemplateArg::Value(v) if *v > 0 => {
                    proof {
                        assert(tmpl_args@.take(i + 1).drop_last() =~= tmpl_args@.take(i as int));
                        assert(all_pos_values(tmpl_args@.take(i + 1)));
                        assert(all_values(tmpl_args@.take(i + 1))) by {
                            assert(forall|k: int|
                                0 <= k < i + 1 ==> #[trigger] tmpl_args@.take(i + 1)[k] matches
                                    TemplateArg::Value(_));
                        }
                        assert(sum_vals(tmpl_args@.take(i + 1)) == total_gas + *v);
                    }
                    success_refs.push(RefValue::Transient);
                    total_gas = total_gas + *v;
                },
                _ => {
                    proof {
                        assert(!all_pos_values(tmpl_args@));
                    }
                    return Err(Error::UnsupportedTypeArg);
                },
            }
            i += 1;
        }
        proof {
            assert(tmpl_args@.take(n as int) =~= tmpl_args@);
        }
        let loc = match as_final(&arg_refs[0]) {
            Ok(loc) => loc,
            Err(e) => {
                return Err(e);
            },
        };
        success_refs.set(0, RefValue::OpWithConst(loc, Op::Add, total_gas));
        let mut failure_refs: Vec<RefValue> = Vec::new();
        failure_refs.push(arg_refs[0]);
        let mut branches: Vec<(Context, Vec<RefValue>)> = Vec::new();
        branches.push((context, success_refs));
        branches.push((context, failure_refs));
        Ok(branches)
    }
}

impl ExtensionImplementation for GetGasExtension {
    fn get_signature(&self, tmpl_args: &Vec<TemplateArg>) -> Result<ExtensionSignature, Error> {
        GetGasExtension::get_signature(self, tmpl_args)
    }

    fn mem_change(
        &self,
        tmpl_args: &Vec<TemplateArg>,
        registry: &TypeRegistry,
        context: Context,
        arg_refs: Vec<RefValue>,
    ) -> Result<Vec<(Context, Vec<RefValue>)>, Error> {
        if arg_refs.len() < 1 {
            return Err(Error::IllegalRefValue);
        }
        if !check_prefix_sums(tmpl_args) {
            return Err(Error::CursorOverflow);
        }
        GetGasExtension::mem_change(self, tmpl_args, registry, context, arg_refs)
    }
}

/// Checks, before summing, that no running sum over value arguments can
/// leave `i64`; a type argument ends the scan as the sum ends there too.
pub fn check_prefix_sums(tmpl_args: &Vec<TemplateArg>) -> (r: bool)
    ensures
        r ==> prefix_sums_fit(tmpl_args@),
{
    let n: usize = tmpl_args.len();
    let mut i: usize = 0;
    let mut total: i64 = 0;
    while i < n
        invariant
            n == tmpl_args@.len(),
            i <= n,
            all_values(tmpl_args@.take(i as int)),
            total as int == sum_vals(tmpl_args@.take(i as int)),
            forall|k: int|
                0 <= k <= i && all_values(#[trigger] tmpl_args@.take(k)) ==> i64::MIN <= sum_vals(
                    tmpl_args@.take(k),
                ) <= i64::MAX,
        decreases n - i,
    {
        match &tmpl_args[i] {
            TemplateArg::Value(v) => {
                proof {
                    assert(tmpl_args@.take(i + 1).drop_last() =~= tmpl_args@.take(i as int));
                }
                let sum: Option<i64> = total.checked_add(*v);
                match sum {
                    Some(s) => {
                        total = s;
                    },
                    None => {
                        proof {
                            assert(all_values(tmpl_args@.take(i + 1)));
                            assert(!(i64::MIN <= sum_vals(tmpl_args@.take(i + 1)) <= i64::MAX));
                        }
                        return false;
                    },
                }
                proof {
                    assert(all_values(tmpl_args@.take(i + 1)));
                    assert(forall|k: int|
                        0 <= k <= i + 1 && all_values(#[trigger] tmpl_args@.take(k))
                            ==> i64::MIN <= sum_vals(tmpl_args@.take(k)) <= i64::MAX);
                }
            },
            TemplateArg::Type(_) => {
                proof {
                    assert(forall|k: int|
                        i < k <= n ==> !all_values(#[trigger] tmpl_args@.take(k))) by {
                        assert(forall|k: int|
                            i < k <= n ==> #[trigger] tmpl_args@.take(k)[i as int] matches
                                TemplateArg::Type(_)) by {
                            assert(forall|k: int|
                                i < k <= n ==> #[trigger] tmpl_args@.take(k)[i as int]
                                    == tmpl_args@[i as int]);
                        };
                    }
                }
                return true;
            },
        }
        i += 1;
    }
    true
}

/// Returns gas to the meter: one amount in, the gas builtin back deferred.
pub struct RefundGasExtension {}

impl RefundGasExtension {
    /// Takes the gas builtin and one gas amount; returns the gas builtin
    /// deferred, moved back by that amount.
    pub fn get_signature(&self, tmpl_args: &Vec<TemplateArg>) -> (r: Result<
        ExtensionSignature,
        Error,
    >)
        ensures
            tmpl_args@.len() != 1 ==> r == Err::<ExtensionSignature, Error>(
                Error::WrongNumberOfTypeArgs,
            ),
            (tmpl_args@.len() == 1 && tmpl_args@[0] matches TemplateArg::Type(_)) ==> r == Err::<
                ExtensionSignature,
                Error,
            >(Error::UnsupportedTypeArg),
            tmpl_args@.len() == 1 ==> (tmpl_args@[0] matches TemplateArg::Value(v) ==> (r matches
                Ok(sig) && {
                &&& sig.args@.len() == 2
                &&& is_gas_builtin(sig.args@[0])
                &&& is_gas_type(sig.args@[1], v)
                &&& sig.results@.len() == 1
                &&& sig.results@[0]@.len() == 1
                &&& is_deferred_gas_builtin(sig.results@[0]@[0])
                &&& sig.fallthrough == Some(0usize)
            })),
    {
        if tmpl_args.len() != 1 {
            return Err(Error::WrongNumberOfTypeArgs);
        }
        let value: i64 = match &tmpl_args[0] {
            TemplateArg::Value(v) => *v,
            TemplateArg::Type(_) => {
                return Err(Error::UnsupportedTypeArg);
            },
        };
        let mut args: Vec<crate::extensions::Type> = Vec::new();
        args.push(gas_builtin_type());
        args.push(gas_type(value));
        let mut results: Vec<crate::extensions::Type> = Vec::new();
        results.push(as_deferred(gas_builtin_type()));
        Ok(simple_invoke_ext_sign(args, results))
    }

    /// The gas builtin reference moves back by the refunded amount.
    pub fn mem_change(
        &self,
        tmpl_args: &Vec<TemplateArg>,
        _registry: &TypeRegistry,
        context: Context,
        arg_refs: Vec<RefValue>,
    ) -> (r: Result<Vec<(Context, Vec<RefValue>)>, Error>)
        requires
            arg_refs@.len() >= 1,
        ensures
            tmpl_args@.len() != 1 ==> r == Err::<Vec<(Context, Vec<RefValue>)>, Error>(
                Error::WrongNumberOfTypeArgs,
            ),
            (tmpl_args@.len() == 1 && tmpl_args@[0] matches TemplateArg::Type(_)) ==> r == Err::<
                Vec<(Context, Vec<RefValue>)>,
                Error,
            >(Error::UnsupportedTypeArg),
            tmpl_args@.len() == 1 ==> ((tmpl_args@[0] matches TemplateArg::Value(_)) ==> ((!(
            arg_refs@[0] matches RefValue::Final(_))) ==> r == Err::<
                Vec<(Context, Vec<RefValue>)>,
                Error,
            >(Error::IllegalRefValue))),
            tmpl_args@.len() == 1 ==> (tmpl_args@[0] matches TemplateArg::Value(v) ==> (
            arg_refs@[0] matches RefValue::Final(loc) ==> (r matches Ok(branches) && {
                &&& branches@.len() == 1
                &&& branches@[0].0 == context
                &&& branches@[0].1@.len() == 1
                &&& branches@[0].1@[0] == RefValue::OpWithConst(loc, Op::Sub, v)
            }))),
    {
        if tmpl_args.len() != 1 {
            return Err(Error::WrongNumberOfTypeArgs);
        }
        let value: i64 = match &tmpl_args[0] {
            TemplateArg::Value(v) => *v,
            TemplateArg::Type(_) => {
                return Err(Error::UnsupportedTypeArg);
            },
        };
        let loc = match as_final(&arg_refs[0]) {
            Ok(loc) => loc,
            Err(e) => {
                return Err(e);
            },
        };
        let mut refs: Vec<RefValue> = Vec::new();
        refs.push(RefValue::OpWithConst(loc, Op::Sub, value));
        let mut branches: Vec<(Context, Vec<RefValue>)> = Vec::new();
        branches.push((context, refs));
        Ok(branches)
    }
}

impl ExtensionImplementation for RefundGasExtension {
    fn get_signature(&self, tmpl_args: &Vec<TemplateArg>) -> Result<ExtensionSignature, Error> {
        RefundGasExtension::get_signature(self, tmpl_args)
    }

    fn mem_change(
        &self,
        tmpl_args: &Vec<TemplateArg>,
        registry: &TypeRegistry,
        context: Context,
        arg_refs: Vec<RefValue>,
    ) -> Result<Vec<(Context, Vec<RefValue>)>, Error> {
        if arg_refs.len() < 1 {
            return Err(Error::IllegalRefValue);
        }
        RefundGasExtension::mem_change(self, tmpl_args, registry, context, arg_refs)
    }
}

/// Splits one gas amount into several smaller amounts.
pub struct SplitGasExtension {}

impl SplitGasExtension {
    /// Takes the summed gas amount, returns one gas type per requested part.
    pub fn get_signature(&self, tmpl_args: &Vec<TemplateArg>) -> (r: Result<
        ExtensionSignature,
        Error,
    >)
        requires
            prefix_sums_fit(tmpl_args@),
        ensures
            tmpl_args@.len() <= 1 ==> r == Err::<ExtensionSignature, Error>(
                Error::WrongNumberOfTypeArgs,
            ),
            tmpl_args@.len() > 1 && !all_values(tmpl_args@) ==> r == Err::<
                ExtensionSignature,
                Error,
            >(Error::UnsupportedTypeArg),
            tmpl_args@.len() > 1 && all_values(tmpl_args@) ==> (r matches Ok(sig) && {
                &&& sig.args@.len() == 1
                &&& is_gas_type(sig.args@[0], sum_vals(tmpl_args@) as i64)
                &&& i64::MIN <= sum_vals(tmpl_args@) <= i64::MAX
                &&& sig.results@.len() == 1
                &&& sig.results@[0]@.len() == tmpl_args@.len()
                &&& forall|j: int|
                    0 <= j < sig.results@[0]@.len() ==> is_gas_type(
                        #[trigger] sig.results@[0]@[j],
                        tmpl_args@[j]->Value_0,
                    )
                &&& sig.fallthrough == Some(0usize)
            }),
    {
        if tmpl_args.len() <= 1 {
            return Err(Error::WrongNumberOfTypeArgs);
        }
        let mut res_types: Vec<crate::extensions::Type> = Vec::new();
        let mut total: i64 = 0;
        let n: usize = tmpl_args.len();
        let mut i: usize = 0;
        while i < n
            invariant
                n == tmpl_args@.len(),
                n > 1,
                i <= n,
                prefix_sums_fit(tmpl_args@),
                all_values(tmpl_args@.take(i as int)),
                total as int == sum_vals(tmpl_args@.take(i as int)),
                res_types@.len() == i,
                forall|j: int|
                    0 <= j < res_types@.len() ==> is_gas_type(
                        #[trigger] res_types@[j],
                        tmpl_args@[j]->Value_0,
                    ),
            decreases n - i,
        {
            match &tmpl_args[i] {
                TemplateArg::Value(v) => {
                    proof {
                        assert(tmpl_args@.take(i + 1).drop_last() =~= tmpl_args@.take(i as int));
                        assert(all_values(tmpl_args@.take(i + 1)));
                        assert(sum_vals(tmpl_args@.take(i + 1)) == total + *v);
                    }
                    res_types.push(gas_type(*v));
                    total = total + *v;
                },
                TemplateArg::Type(_) => {
                    return Err(Error::UnsupportedTypeArg);
                },
            }
            i += 1;
        }
        proof {
            assert(tmpl_args@.take(n as int) =~= tmpl_args@);
        }
        let mut args: Vec<crate::extensions::Type> = Vec::new();
        args.push(gas_type(total));
        Ok(simple_invoke_ext_sign(args, res_types))
    }

    /// Every split part is transient; the context is untouched.
    pub fn mem_change(
        &self,
        tmpl_args: &Vec<TemplateArg>,
        _registry: &TypeRegistry,
        context: Context,
        _arg_refs: Vec<RefValue>,
    ) -> (r: Result<Vec<(Context, Vec<RefValue>)>, Error>)
        ensures
            r matches Ok(branches) && {
                &&& branches@.len() == 1
                &&& branches@[0].0 == context
                &&& branches@[0].1@.len() == tmpl_args@.len()
                &&& forall|j: int|
                    0 <= j < branches@[0].1@.len() ==> #[trigger] branches@[0].1@[j]
                        == RefValue::Transient
            },
    {
        let mut refs: Vec<RefValue> = Vec::new();
        let n: usize = tmpl_args.len();
        let mut i: usize = 0;
        while i < n
            invariant
                i <= n,
                refs@.len() == i,
                forall|j: int| 0 <= j < refs@.len() ==> refs@[j] == RefValue::Transient,
            decreases n - i,
        {
            refs.push(RefValue::Transient);
            i += 1;
        }
        let mut branches: Vec<(Context, Vec<RefValue>)> = Vec::new();
        branches.push((context, refs));
        Ok(branches)
    }
}

impl ExtensionImplementation for SplitGasExtension {
    fn get_signature(&self, tmpl_args: &Vec<TemplateArg>) -> Result<ExtensionSignature, Error> {
        if !check_prefix_sums(tmpl_args) {
            return Err(Error::CursorOverflow);
        }
        SplitGasExtension::get_signature(self, tmpl_args)
    }

    fn mem_change(
        &self,
        tmpl_args: &Vec<TemplateArg>,
        registry: &TypeRegistry,
        context: Context,
        arg_refs: Vec<RefValue>,
    ) -> Result<Vec<(Context, Vec<RefValue>)>, Error> {
        SplitGasExtension::mem_change(self, tmpl_args, registry, context, arg_refs)
    }
}

/// The gas extensions, bound to the names `get_gas`, `refund_gas` and
/// `split_gas` in that order.
pub fn extensions() -> Vec<(String, ExtensionBox)> {
    let mut v: Vec<(String, ExtensionBox)> = Vec::new();
    v.push((mk_string("get_gas"), Box::new(GetGasExtension {})));
    v.push((mk_string("refund_gas"), Box::new(RefundGasExtension {})));
    v.push((mk_string("split_gas"), Box::new(SplitGasExtension {})));
    v
}

/// The gas builtin occupies one cell.
pub struct GasBuiltinTypeInfo {}

impl GasBuiltinTypeInfo {
    /// Takes no arguments; the builtin occupies one cell.
    pub fn get_info(&self, tmpl_args: &Vec<TemplateArg>) -> (r: Result<TypeInfo, Error>)
        ensures
            tmpl_args@.len() != 0 ==> r == Err::<TypeInfo, Error>(Error::WrongNumberOfTypeArgs),
            tmpl_args@.len() == 0 ==> r == Ok::<TypeInfo, Error>(TypeInfo { size: 1 }),
    {
        if !tmpl_args.is_empty() {
            return Err(Error::WrongNumberOfTypeArgs);
        }
        Ok(TypeInfo { size: 1 })
    }
}

impl TypeInfoImplementation for GasBuiltinTypeInfo {
    fn get_info(&self, tmpl_args: &Vec<TemplateArg>) -> Result<TypeInfo, Error> {
        GasBuiltinTypeInfo::get_info(self, tmpl_args)
    }
}

/// A gas amount occupies no cells; it exists only in the type system.
pub struct GasTypeInfo {}

impl GasTypeInfo {
    /// Takes one value argument; gas amounts occupy no cells.
    pub fn get_info(&self, tmpl_args: &Vec<TemplateArg>) -> (r: Result<TypeInfo, Error>)
        ensures
            tmpl_args@.len() != 1 ==> r == Err::<TypeInfo, Error>(Error::WrongNumberOfTypeArgs),
            (tmpl_args@.len() == 1 && tmpl_args@[0] matches TemplateArg::Type(_)) ==> r == Err::<
                TypeInfo,
                Error,
            >(Error::UnsupportedTypeArg),
            (tmpl_args@.len() == 1 && tmpl_args@[0] matches TemplateArg::Value(_)) ==> r == Ok::<
                TypeInfo,
                Error,
            >(TypeInfo { size: 0 }),
    {
        if tmpl_args.len() != 1 {
            return Err(Error::WrongNumberOfTypeArgs);
        }
        match &tmpl_args[0] {
            TemplateArg::Type(_) => Err(Error::UnsupportedTypeArg),
            TemplateArg::Value(_) => Ok(TypeInfo { size: 0 }),
        }
    }
}

impl TypeInfoImplementation for GasTypeInfo {
    fn get_info(&self, tmpl_args: &Vec<TemplateArg>) -> Result<TypeInfo, Error> {
        GasTypeInfo::get_info(self, tmpl_args)
    }
}

/// The gas types, bound to the names of the gas builtin and the gas
/// amount type in that order.
pub fn types() -> Vec<(String, TypeInfoBox)> {
    let n0: String = gas_builtin_type().name;
    let n1: String = gas_type(1).name;
    let mut v: Vec<(String, TypeInfoBox)> = Vec::new();
    v.push((n0, Box::new(GasBuiltinTypeInfo {})));
    v.push((n1, Box::new(GasTypeInfo {})));
    v
}

} // verus!
