use vstd::prelude::*;
use crate::extensions::{
    is_gas_type, Context, Error, ExtensionBox, ExtensionImplementation, ExtensionSignature,
    RefValue, TemplateArg, Type, TypeRegistry,
};
use crate::utils::{gas_type, mk_string};

verus! {

/// Jumps to another statement; there is no fallthrough branch.
pub struct UnconditionalJumpExtension {}

impl UnconditionalJumpExtension {
    /// Takes one gas and no type arguments; the single branch carries no
    /// values and is not a fallthrough.
    pub fn get_signature(&self, tmpl_args: &Vec<TemplateArg>) -> (r: Result<
        ExtensionSignature,
        Error,
    >)
        ensures
            tmpl_args@.len() != 0 ==> r == Err::<ExtensionSignature, Error>(
                Error::WrongNumberOfTypeArgs,
            ),
            tmpl_args@.len() == 0 ==> (r matches Ok(sig) && {
                &&& sig.args@.len() == 1
                &&& is_gas_type(sig.args@[0], 1)
                &&& sig.results@.len() == 1
                &&& sig.results@[0]@.len() == 0
                &&& sig.fallthrough is None
            }),
    {
        if !tmpl_args.is_empty() {
            return Err(Error::WrongNumberOfTypeArgs);
        }
        let mut args: Vec<Type> = Vec::new();
        args.push(gas_type(1));
        let mut results: Vec<Vec<Type>> = Vec::new();
        results.push(Vec::new());
        Ok(ExtensionSignature { args, results, fallthrough: None })
    }

    /// Carries the context through and hands no references out.
    pub fn mem_change(
        &self,
        _tmpl_args: &Vec<TemplateArg>,
        _registry: &TypeRegistry,
        context: Context,
        _arg_refs: Vec<RefValue>,
    ) -> (r: Result<Vec<(Context, Vec<RefValue>)>, Error>)
        ensures
            r matches Ok(branches) && branches@.len() == 1 && branches@[0].0 == context
                && branches@[0].1@.len() == 0,
    {
        let mut branches: Vec<(Context, Vec<RefValue>)> = Vec::new();
        branches.push((context, Vec::new()));
        Ok(branches)
    }
}

impl ExtensionImplementation for UnconditionalJumpExtension {
    fn get_signature(&self, tmpl_args: &Vec<TemplateArg>) -> Result<ExtensionSignature, Error> {
        UnconditionalJumpExtension::get_signature(self, tmpl_args)
    }

    fn mem_change(
        &self,
        tmpl_args: &Vec<TemplateArg>,
        registry: &TypeRegistry,
        context: Context,
        arg_refs: Vec<RefValue>,
    ) -> Result<Vec<(Context, Vec<RefValue>)>, Error> {
        UnconditionalJumpExtension::mem_change(self, tmpl_args, registry, context, arg_refs)
    }
}

/// The jump extension under the name the language binds it to: `jump`.
pub fn extensions() -> Vec<(String, ExtensionBox)> {
    let mut v: Vec<(String, ExtensionBox)> = Vec::new();
    v.push((mk_string("jump"), Box::new(UnconditionalJumpExtension {})));
    v
}

} // verus!
