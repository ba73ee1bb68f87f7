use vstd::prelude::*;
use crate::extensions::{
    as_final, dup_type, simple_invoke_ext_sign, type_like, Context, Error, ExtensionBox,
    ExtensionImplementation, ExtensionSignature, MemLocation, Op, RefValue, TemplateArg, Type,
    TypeRegistry,
};
use crate::extensions::{get_info, is_gas_type, single_type_arg};
use crate::utils::{as_deferred, gas_type, mk_string};

verus! {

/// Whether a value is stored into the temporary or the local frame area.
#[derive(Clone, Copy, Debug, PartialEq, Eq, Structural)]
pub enum StoreType {
    Temp,
    Local,
}

/// The store kind named by a template argument, if it names one.
pub open spec fn store_kind_of(a: TemplateArg) -> Option<StoreType> {
    match a {
        TemplateArg::Type(t) => if t.name@ == "Temp"@ && t.args@.len() == 0 {
            Some(StoreType::Temp)
        } else if t.name@ == "Local"@ && t.args@.len() == 0 {
            Some(StoreType::Local)
        } else {
            None
        },
        TemplateArg::Value(_) => None,
    }
}

/// Splits the argument pair of a store: the area to store into and the
/// stored type.
pub fn unpack_args<'a>(tmpl_args: &'a Vec<TemplateArg>) -> (r: Result<(StoreType, &'a Type), Error>)
    ensures
        tmpl_args@.len() != 2 ==> r == Err::<(StoreType, &'a Type), Error>(
            Error::WrongNumberOfTypeArgs,
        ),
        tmpl_args@.len() == 2 && store_kind_of(tmpl_args@[0]) is None ==> r == Err::<
            (StoreType, &'a Type),
            Error,
        >(Error::UnsupportedTypeArg),
        tmpl_args@.len() == 2 && store_kind_of(tmpl_args@[0]) is Some && !(tmpl_args@[1] matches
            TemplateArg::Type(_)) ==> r == Err::<(StoreType, &'a Type), Error>(
            Error::UnsupportedTypeArg,
        ),
        r matches Ok(p) ==> {
            &&& tmpl_args@.len() == 2
            &&& store_kind_of(tmpl_args@[0]) == Some(p.0)
            &&& tmpl_args@[1] == TemplateArg::Type(*p.1)
        },
        (tmpl_args@.len() == 2 && store_kind_of(tmpl_args@[0]) is Some && tmpl_args@[1] matches
            TemplateArg::Type(_)) ==> r is Ok,
{
    if tmpl_args.len() != 2 {
        return Err(Error::WrongNumberOfTypeArgs);
    }
    let temp_name: String = mk_string("Temp");
    let local_name: String = mk_string("Local");
    let store_ty: StoreType = match &tmpl_args[0] {
        TemplateArg::Type(t) => {
            if t.name == temp_name && t.args.len() == 0 {
                StoreType::Temp
            } else if t.name == local_name && t.args.len() == 0 {
                StoreType::Local
            } else {
                return Err(Error::UnsupportedTypeArg);
            }
        },
        TemplateArg::Value(_) => {
            return Err(Error::UnsupportedTypeArg);
        },
    };
    let ty: &Type = match &tmpl_args[1] {
        TemplateArg::Type(ty) => ty,
        TemplateArg::Value(_) => {
            return Err(Error::UnsupportedTypeArg);
        },
    };
    Ok((store_ty, ty))
}

/// True when `d` wraps, as deferred, a type equivalent to `inner`.
pub open spec fn is_deferred_like(d: Type, inner: Type) -> bool {
    d.name@ == "Deferred"@ && d.args@.len() == 1 && (d.args@[0] matches TemplateArg::Type(t)
        && type_like(t, inner))
}

/// Stores a deferred value into the frame, spending one gas.
pub struct StoreExtension {}

impl StoreExtension {
    /// Takes the deferred value and one gas; returns the stored value.
    pub fn get_signature(&self, tmpl_args: &Vec<TemplateArg>) -> (r: Result<
        ExtensionSignature,
        Error,
    >)
        ensures
            tmpl_args@.len() != 2 ==> r == Err::<ExtensionSignature, Error>(
                Error::WrongNumberOfTypeArgs,
            ),
            tmpl_args@.len() == 2 && store_kind_of(tmpl_args@[0]) is None ==> r == Err::<
                ExtensionSignature,
                Error,
            >(Error::UnsupportedTypeArg),
            tmpl_args@.len() == 2 && store_kind_of(tmpl_args@[0]) is Some && !(tmpl_args@[1]
                matches TemplateArg::Type(_)) ==> r == Err::<ExtensionSignature, Error>(
                Error::UnsupportedTypeArg,
            ),
            r matches Ok(sig) ==> {
                &&& tmpl_args@.len() == 2
                &&& store_kind_of(tmpl_args@[0]) is Some
                &&& tmpl_args@[1] matches TemplateArg::Type(ty) && {
                    &&& sig.args@.len() == 2
                    &&& is_deferred_like(sig.args@[0], ty)
                    &&& is_gas_type(sig.args@[1], 1)
                    &&& sig.results@.len() == 1
                    &&& sig.results@[0]@.len() == 1
                    &&& type_like(sig.results@[0]@[0], ty)
                    &&& sig.fallthrough == Some(0usize)
                }
            },
            (tmpl_args@.len() == 2 && store_kind_of(tmpl_args@[0]) is Some && tmpl_args@[1] matches
                TemplateArg::Type(_)) ==> r is Ok,
    {
        let ty: &Type = match unpack_args(tmpl_args) {
            Ok((_, ty)) => ty,
            Err(e) => {
                return Err(e);
            },
        };
        let mut args: Vec<Type> = Vec::new();
        args.push(as_deferred(dup_type(ty)));
        args.push(gas_type(1));
        let mut results: Vec<Type> = Vec::new();
        results.push(dup_type(ty));
        Ok(simple_invoke_ext_sign(args, results))
    }

    /// Advances the area's cursor by the stored size and finalizes the
    /// value at the cursor's previous position.
    pub fn mem_change(
        &self,
        tmpl_args: &Vec<TemplateArg>,
        registry: &TypeRegistry,
        context: Context,
        _arg_refs: Vec<RefValue>,
    ) -> (r: Result<Vec<(Context, Vec<RefValue>)>, Error>)
        ensures
            tmpl_args@.len() != 2 ==> r == Err::<Vec<(Context, Vec<RefValue>)>, Error>(
                Error::WrongNumberOfTypeArgs,
            ),
            r matches Ok(branches) ==> exists|sz: usize|
                {
                    &&& branches@.len() == 1
                    &&& #[trigger] store_sized(
                        store_kind_of(tmpl_args@[0])->0,
                        sz,
                        context,
                    ) matches Ok(p)
                    &&& branches@[0].0 == p.0
                    &&& branches@[0].1@.len() == 1
                    &&& branches@[0].1@[0] == RefValue::Final(p.1)
                },
    {
        let (store_ty, ty) = match unpack_args(tmpl_args) {
            Ok(p) => p,
            Err(e) => {
                return Err(e);
            },
        };
        let ti = match get_info(registry, ty) {
            Ok(ti) => ti,
            Err(e) => {
                return Err(e);
            },
        };
        let (new_context, loc) = match store_sized_exec(store_ty, ti.size, context) {
            Ok(p) => p,
            Err(e) => {
                return Err(e);
            },
        };
        let mut refs: Vec<RefValue> = Vec::new();
        refs.push(RefValue::Final(loc));
        let mut branches: Vec<(Context, Vec<RefValue>)> = Vec::new();
        branches.push((new_context, refs));
        proof {
            let sz = ti.size;
            assert(store_sized(store_kind_of(tmpl_args@[0])->0, sz, context) matches Ok(p)
                && branches@[0].0 == p.0 && branches@[0].1@[0] == RefValue::Final(p.1));
        }
        Ok(branches)
    }
}

/// Where a store of `sz` cells lands and how it moves the context: the
/// value sits at the area's old cursor, which advances by `sz`. A local
/// store demands that locals were allocated; a cursor past `usize` is
/// refused.
pub open spec fn store_sized(store_ty: StoreType, sz: usize, context: Context) -> Result<
    (Context, MemLocation),
    Error,
> {
    match store_ty {
        StoreType::Temp => if context.temp_cursur + sz <= usize::MAX {
            Ok(
                (
                    Context {
                        temp_cursur: (context.temp_cursur + sz) as usize,
                        temp_used: true,
                        ..context
                    },
                    MemLocation::Temp(context.temp_cursur as i64),
                ),
            )
        } else {
            Err(Error::CursorOverflow)
        },
        StoreType::Local => if !context.local_allocated {
            Err(Error::LocalMemoryNotAllocated)
        } else if context.local_cursur + sz <= usize::MAX {
            Ok(
                (
                    Context {
                        local_cursur: (context.local_cursur + sz) as usize,
                        ..context
                    },
                    MemLocation::Local(context.local_cursur as i64),
                ),
            )
        } else {
            Err(Error::CursorOverflow)
        },
    }
}

/// Runs one sized store against the context, as `store_sized` states.
pub fn store_sized_exec(store_ty: StoreType, sz: usize, context: Context) -> (r: Result<
    (Context, MemLocation),
    Error,
>)
    ensures
        r == store_sized(store_ty, sz, context),
{
    match store_ty {
        StoreType::Temp => {
            let prev: i64 = context.temp_cursur as i64;
            match context.temp_cursur.checked_add(sz) {
                Some(c) => Ok(
                    (
                        Context { temp_cursur: c, temp_used: true, ..context },
                        MemLocation::Temp(prev),
                    ),
                ),
                None => Err(Error::CursorOverflow),
            }
        },
        StoreType::Local => {
            if !context.local_allocated {
                return Err(Error::LocalMemoryNotAllocated);
            }
            let prev: i64 = context.local_cursur as i64;
            match context.local_cursur.checked_add(sz) {
                Some(c) => Ok(
                    (Context { local_cursur: c, ..context }, MemLocation::Local(prev)),
                ),
                None => Err(Error::CursorOverflow),
            }
        },
    }
}

impl ExtensionImplementation for StoreExtension {
    fn get_signature(&self, tmpl_args: &Vec<TemplateArg>) -> Result<ExtensionSignature, Error> {
        StoreExtension::get_signature(self, tmpl_args)
    }

    fn mem_change(
        &self,
        tmpl_args: &Vec<TemplateArg>,
        registry: &TypeRegistry,
        context: Context,
        arg_refs: Vec<RefValue>,
    ) -> Result<Vec<(Context, Vec<RefValue>)>, Error> {
        StoreExtension::mem_change(self, tmpl_args, registry, context, arg_refs)
    }
}

/// Renames a value without moving it.
pub struct RenameExtension {}

impl RenameExtension {
    /// Takes and returns the same type.
    pub fn get_signature(&self, tmpl_args: &Vec<TemplateArg>) -> (r: Result<
        ExtensionSignature,
        Error,
    >)
        ensures
            tmpl_args@.len() != 1 ==> r == Err::<ExtensionSignature, Error>(
                Error::WrongNumberOfTypeArgs,
            ),
            (tmpl_args@.len() == 1 && tmpl_args@[0] matches TemplateArg::Value(_)) ==> r == Err::<
                ExtensionSignature,
                Error,
            >(Error::UnsupportedTypeArg),
            r matches Ok(sig) ==> tmpl_args@.len() == 1 && (tmpl_args@[0] matches
                TemplateArg::Type(ty) && {
                &&& sig.args@.len() == 1
                &&& type_like(sig.args@[0], ty)
                &&& sig.results@.len() == 1
                &&& sig.results@[0]@.len() == 1
                &&& type_like(sig.results@[0]@[0], ty)
                &&& sig.fallthrough == Some(0usize)
            }),
            (tmpl_args@.len() == 1 && tmpl_args@[0] matches TemplateArg::Type(_)) ==> r is Ok,
    {
        let ty: &Type = match single_type_arg(tmpl_args) {
            Ok(ty) => ty,
            Err(e) => {
                return Err(e);
            },
        };
        let mut args: Vec<Type> = Vec::new();
        args.push(dup_type(ty));
        let mut results: Vec<Type> = Vec::new();
        results.push(dup_type(ty));
        Ok(simple_invoke_ext_sign(args, results))
    }

    /// Passes every reference through untouched.
    pub fn mem_change(
        &self,
        _tmpl_args: &Vec<TemplateArg>,
        _registry: &TypeRegistry,
        context: Context,
        arg_refs: Vec<RefValue>,
    ) -> (r: Result<Vec<(Context, Vec<RefValue>)>, Error>)
        ensures
            r matches Ok(branches) && branches@.len() == 1 && branches@[0].0 == context
                && branches@[0].1 == arg_refs,
    {
        let mut branches: Vec<(Context, Vec<RefValue>)> = Vec::new();
        branches.push((context, arg_refs));
        Ok(branches)
    }
}

impl ExtensionImplementation for RenameExtension {
    fn get_signature(&self, tmpl_args: &Vec<TemplateArg>) -> Result<ExtensionSignature, Error> {
        RenameExtension::get_signature(self, tmpl_args)
    }

    fn mem_change(
        &self,
        tmpl_args: &Vec<TemplateArg>,
        registry: &TypeRegistry,
        context: Context,
        arg_refs: Vec<RefValue>,
    ) -> Result<Vec<(Context, Vec<RefValue>)>, Error> {
        RenameExtension::mem_change(self, tmpl_args, registry, context, arg_refs)
    }
}

/// Marks a value as about to move; its store is deferred.
pub struct MoveExtension {}

impl MoveExtension {
    /// Takes a type, returns it deferred.
    pub fn get_signature(&self, tmpl_args: &Vec<TemplateArg>) -> (r: Result<
        ExtensionSignature,
        Error,
    >)
        ensures
            tmpl_args@.len() != 1 ==> r == Err::<ExtensionSignature, Error>(
                Error::WrongNumberOfTypeArgs,
            ),
            (tmpl_args@.len() == 1 && tmpl_args@[0] matches TemplateArg::Value(_)) ==> r == Err::<
                ExtensionSignature,
                Error,
            >(Error::UnsupportedTypeArg),
            r matches Ok(sig) ==> tmpl_args@.len() == 1 && (tmpl_args@[0] matches
                TemplateArg::Type(ty) && {
                &&& sig.args@.len() == 1
                &&& type_like(sig.args@[0], ty)
                &&& sig.results@.len() == 1
                &&& sig.results@[0]@.len() == 1
                &&& is_deferred_like(sig.results@[0]@[0], ty)
                &&& sig.fallthrough == Some(0usize)
            }),
            (tmpl_args@.len() == 1 && tmpl_args@[0] matches TemplateArg::Type(_)) ==> r is Ok,
    {
        let ty: &Type = match single_type_arg(tmpl_args) {
            Ok(ty) => ty,
            Err(e) => {
                return Err(e);
            },
        };
        let mut args: Vec<Type> = Vec::new();
        args.push(dup_type(ty));
        let mut results: Vec<Type> = Vec::new();
        results.push(as_deferred(dup_type(ty)));
        Ok(simple_invoke_ext_sign(args, results))
    }

    /// The moved value keeps its location, shifted by nothing.
    pub fn mem_change(
        &self,
        _tmpl_args: &Vec<TemplateArg>,
        _registry: &TypeRegistry,
        context: Context,
        arg_refs: Vec<RefValue>,
    ) -> (r: Result<Vec<(Context, Vec<RefValue>)>, Error>)
        requires
            arg_refs@.len() >= 1,
        ensures
            !(arg_refs@[0] matches RefValue::Final(_)) ==> r == Err::<
                Vec<(Context, Vec<RefValue>)>,
                Error,
            >(Error::IllegalRefValue),
            arg_refs@[0] matches RefValue::Final(loc) ==> (r matches Ok(branches) && {
                &&& branches@.len() == 1
                &&& branches@[0].0 == context
                &&& branches@[0].1@.len() == 1
                &&& branches@[0].1@[0] == RefValue::OpWithConst(loc, Op::Add, 0)
            }),
    {
        let loc = match as_final(&arg_refs[0]) {
            Ok(loc) => loc,
            Err(e) => {
                return Err(e);
            },
        };
        let mut refs: Vec<RefValue> = Vec::new();
        refs.push(RefValue::OpWithConst(loc, Op::Add, 0));
        let mut branches: Vec<(Context, Vec<RefValue>)> = Vec::new();
        branches.push((context, refs));
        Ok(branches)
    }
}

impl ExtensionImplementation for MoveExtension {
    fn get_signature(&self, tmpl_args: &Vec<TemplateArg>) -> Result<ExtensionSignature, Error> {
        MoveExtension::get_signature(self, tmpl_args)
    }

    fn mem_change(
        &self,
        tmpl_args: &Vec<TemplateArg>,
        registry: &TypeRegistry,
        context: Context,
        arg_refs: Vec<RefValue>,
    ) -> Result<Vec<(Context, Vec<RefValue>)>, Error> {
        if arg_refs.len() < 1 {
            return Err(Error::IllegalRefValue);
        }
        MoveExtension::mem_change(self, tmpl_args, registry, context, arg_refs)
    }
}

/// Opens the local frame area; allowed once, before any temporaries.
pub struct AllocLocalsExtension {}

impl AllocLocalsExtension {
    /// Takes one gas and no type arguments; returns nothing.
    pub fn get_signature(&self, tmpl_args: &Vec<TemplateArg>) -> (r: Result<
        ExtensionSignature,
        Error,
    >)
        ensures
            tmpl_args@.len() != 0 ==> r == Err::<ExtensionSignature, Error>(
                Error::WrongNumberOfTypeArgs,
            ),
            tmpl_args@.len() == 0 ==> (r matches Ok(sig) && {
                &&& sig.args@.len() == 1
                &&& is_gas_type(sig.args@[0], 1)
                &&& sig.results@.len() == 1
                &&& sig.results@[0]@.len() == 0
                &&& sig.fallthrough == Some(0usize)
            }),
    {
        if !tmpl_args.is_empty() {
            return Err(Error::WrongNumberOfTypeArgs);
        }
        let mut args: Vec<Type> = Vec::new();
        args.push(gas_type(1));
        Ok(simple_invoke_ext_sign(args, Vec::new()))
    }

    /// Marks locals as allocated; refused after temporaries were used or
    /// after an earlier allocation.
    pub fn mem_change(
        &self,
        _tmpl_args: &Vec<TemplateArg>,
        _registry: &TypeRegistry,
        context: Context,
        _arg_refs: Vec<RefValue>,
    ) -> (r: Result<Vec<(Context, Vec<RefValue>)>, Error>)
        ensures
            context.local_allocated ==> r == Err::<Vec<(Context, Vec<RefValue>)>, Error>(
                Error::LocalMemoryAlreadyAllocated,
            ),
            !context.local_allocated && context.temp_used ==> r == Err::<
                Vec<(Context, Vec<RefValue>)>,
                Error,
            >(Error::LocalMemoryCantBeAllocated),
            !context.local_allocated && !context.temp_used ==> (r matches Ok(branches) && {
                &&& branches@.len() == 1
                &&& branches@[0].0 == Context {
                    local_allocated: true,
                    temp_used: true,
                    ..context
                }
                &&& branches@[0].1@.len() == 0
            }),
    {
        if context.local_allocated {
            Err(Error::LocalMemoryAlreadyAllocated)
        } else if context.temp_used {
            Err(Error::LocalMemoryCantBeAllocated)
        } else {
            let new_context = Context { local_allocated: true, temp_used: true, ..context };
            let mut branches: Vec<(Context, Vec<RefValue>)> = Vec::new();
            branches.push((new_context, Vec::new()));
            Ok(branches)
        }
    }
}

impl ExtensionImplementation for AllocLocalsExtension {
    fn get_signature(&self, tmpl_args: &Vec<TemplateArg>) -> Result<ExtensionSignature, Error> {
        AllocLocalsExtension::get_signature(self, tmpl_args)
    }

    fn mem_change(
        &self,
        tmpl_args: &Vec<TemplateArg>,
        registry: &TypeRegistry,
        context: Context,
        arg_refs: Vec<RefValue>,
    ) -> Result<Vec<(Context, Vec<RefValue>)>, Error> {
        AllocLocalsExtension::mem_change(self, tmpl_args, registry, context, arg_refs)
    }
}

/// Extracts the single positive value argument.
pub fn value_arg(tmpl_args: &Vec<TemplateArg>) -> (r: Result<usize, Error>)
    ensures
        tmpl_args@.len() != 1 ==> r == Err::<usize, Error>(Error::WrongNumberOfTypeArgs),
        tmpl_args@.len() == 1 ==> match tmpl_args@[0] {
            TemplateArg::Value(v) => if v > 0 {
                r == Ok::<usize, Error>(v as usize)
            } else {
                r == Err::<usize, Error>(Error::UnsupportedTypeArg)
            },
            TemplateArg::Type(_) => r == Err::<usize, Error>(Error::UnsupportedTypeArg),
        },
{
    if tmpl_args.len() != 1 {
        return Err(Error::WrongNumberOfTypeArgs);
    }
    match &tmpl_args[0] {
        TemplateArg::Value(v) => {
            if *v > 0 {
                Ok(*v as usize)
            } else {
                Err(Error::UnsupportedTypeArg)
            }
        },
        TemplateArg::Type(_) => Err(Error::UnsupportedTypeArg),
    }
}

/// Skips cells of the temporary area so later stores land aligned.
pub struct AlignTempsExtension {}

impl AlignTempsExtension {
    /// Takes one gas; the skipped width is the single value argument.
    pub fn get_signature(&self, tmpl_args: &Vec<TemplateArg>) -> (r: Result<
        ExtensionSignature,
        Error,
    >)
        ensures
            tmpl_args@.len() != 1 ==> r == Err::<ExtensionSignature, Error>(
                Error::WrongNumberOfTypeArgs,
            ),
            tmpl_args@.len() == 1 ==> match tmpl_args@[0] {
                TemplateArg::Value(v) => if v > 0 {
                    r matches Ok(sig) && {
                        &&& sig.args@.len() == 1
                        &&& is_gas_type(sig.args@[0], 1)
                        &&& sig.results@.len() == 1
                        &&& sig.results@[0]@.len() == 0
                        &&& sig.fallthrough == Some(0usize)
                    }
                } else {
                    r == Err::<ExtensionSignature, Error>(Error::UnsupportedTypeArg)
                },
                TemplateArg::Type(_) => r == Err::<ExtensionSignature, Error>(
                    Error::UnsupportedTypeArg,
                ),
            },
    {
        match value_arg(tmpl_args) {
            Ok(_) => {},
            Err(e) => {
                return Err(e);
            },
        }
        let mut args: Vec<Type> = Vec::new();
        args.push(gas_type(1));
        Ok(simple_invoke_ext_sign(args, Vec::new()))
    }

    /// Advances the temporary cursor by the skipped width.
    pub fn mem_change(
        &self,
        tmpl_args: &Vec<TemplateArg>,
        _registry: &TypeRegistry,
        context: Context,
        _arg_refs: Vec<RefValue>,
    ) -> (r: Result<Vec<(Context, Vec<RefValue>)>, Error>)
        ensures
            tmpl_args@.len() != 1 ==> r == Err::<Vec<(Context, Vec<RefValue>)>, Error>(
                Error::WrongNumberOfTypeArgs,
            ),
            tmpl_args@.len() == 1 ==> match tmpl_args@[0] {
                TemplateArg::Value(v) => if v > 0 {
                    if context.temp_cursur + (v as usize) <= usize::MAX {
                        r matches Ok(branches) && {
                            &&& branches@.len() == 1
                            &&& branches@[0].0 == Context {
                                temp_cursur: (context.temp_cursur + (v as usize)) as usize,
                                temp_used: true,
                                ..context
                            }
                            &&& branches@[0].1@.len() == 0
                        }
                    } else {
                        r == Err::<Vec<(Context, Vec<RefValue>)>, Error>(Error::CursorOverflow)
                    }
                } else {
                    r == Err::<Vec<(Context, Vec<RefValue>)>, Error>(Error::UnsupportedTypeArg)
                },
                TemplateArg::Type(_) => r == Err::<Vec<(Context, Vec<RefValue>)>, Error>(
                    Error::UnsupportedTypeArg,
                ),
            },
    {
        let width: usize = match value_arg(tmpl_args) {
            Ok(w) => w,
            Err(e) => {
                return Err(e);
            },
        };
        let cursor: usize = match context.temp_cursur.checked_add(width) {
            Some(c) => c,
            None => {
                return Err(Error::CursorOverflow);
            },
        };
        let new_context = Context { temp_cursur: cursor, temp_used: true, ..context };
        let mut branches: Vec<(Context, Vec<RefValue>)> = Vec::new();
        branches.push((new_context, Vec::new()));
        Ok(branches)
    }
}

impl ExtensionImplementation for AlignTempsExtension {
    fn get_signature(&self, tmpl_args: &Vec<TemplateArg>) -> Result<ExtensionSignature, Error> {
        AlignTempsExtension::get_signature(self, tmpl_args)
    }

    fn mem_change(
        &self,
        tmpl_args: &Vec<TemplateArg>,
        registry: &TypeRegistry,
        context: Context,
        arg_refs: Vec<RefValue>,
    ) -> Result<Vec<(Context, Vec<RefValue>)>, Error> {
        AlignTempsExtension::mem_change(self, tmpl_args, registry, context, arg_refs)
    }
}

/// The store extensions under the names the language binds them to:
/// `store`, `rename`, `move`, `alloc_locals` and `align_temps`.
pub fn extensions() -> Vec<(String, ExtensionBox)> {
    let mut v: Vec<(String, ExtensionBox)> = Vec::new();
    v.push((mk_string("store"), Box::new(StoreExtension {})));
    v.push((mk_string("rename"), Box::new(RenameExtension {})));
    v.push((mk_string("move"), Box::new(MoveExtension {})));
    v.push((mk_string("alloc_locals"), Box::new(AllocLocalsExtension {})));
    v.push((mk_string("align_temps"), Box::new(AlignTempsExtension {})));
    v
}

} // verus!
