use casm_run::extensions::{Error, ExtensionSignature, simple_invoke_ext_sign};
use casm_run::gas_station::{GetGasExtension, RefundGasExtension, SplitGasExtension};
use casm_run::store::StoreExtension;
use casm_run::unconditional_jump::UnconditionalJumpExtension;
use casm_run::utils::{as_deferred, as_type, gas_builtin_type, gas_type, type_arg, val_arg};

#[test]
fn gas_station_legal_usage() {
    assert_eq!(
        GetGasExtension {}.get_signature(&vec![val_arg(1), val_arg(2)]),
        Ok(ExtensionSignature {
            args: vec![gas_builtin_type(), gas_type(1)],
            results: vec![
                vec![as_deferred(gas_builtin_type()), gas_type(1), gas_type(2)],
                vec![gas_builtin_type()],
            ],
            fallthrough: Some(1),
        })
    );
    assert_eq!(
        RefundGasExtension {}.get_signature(&vec![val_arg(5)]),
        Ok(simple_invoke_ext_sign(
            vec![gas_builtin_type(), gas_type(5)],
            vec![as_deferred(gas_builtin_type())],
        ))
    );
    assert_eq!(
        SplitGasExtension {}.get_signature(&vec![val_arg(1), val_arg(2)]),
        Ok(simple_invoke_ext_sign(
            vec![gas_type(3)],
            vec![gas_type(1), gas_type(2)],
        ))
    );
}

#[test]
fn gas_station_wrong_num_of_args() {
    assert_eq!(
        GetGasExtension {}.get_signature(&vec![]),
        Err(Error::WrongNumberOfTypeArgs)
    );
    assert_eq!(
        RefundGasExtension {}.get_signature(&vec![]),
        Err(Error::WrongNumberOfTypeArgs)
    );
    assert_eq!(
        SplitGasExtension {}.get_signature(&vec![]),
        Err(Error::WrongNumberOfTypeArgs)
    );
    assert_eq!(
        SplitGasExtension {}.get_signature(&vec![val_arg(1)]),
        Err(Error::WrongNumberOfTypeArgs)
    );
}

#[test]
fn gas_station_wrong_arg_type() {
    assert_eq!(
        GetGasExtension {}.get_signature(&vec![type_arg(gas_type(1))]),
        Err(Error::UnsupportedTypeArg)
    );
    assert_eq!(
        RefundGasExtension {}.get_signature(&vec![type_arg(gas_type(1))]),
        Err(Error::UnsupportedTypeArg)
    );
    assert_eq!(
        SplitGasExtension {}.get_signature(&vec![val_arg(1), type_arg(gas_type(1))],),
        Err(Error::UnsupportedTypeArg)
    );
}

#[test]
fn store_legal_usage() {
    assert_eq!(
        StoreExtension {}
            .get_signature(&vec![type_arg(as_type("Temp")), type_arg(as_type("int"))]),
        Ok(simple_invoke_ext_sign(
            vec![as_deferred(as_type("int")), gas_type(1)],
            vec![as_type("int")],
        ))
    );
    assert_eq!(
        StoreExtension {}
            .get_signature(&vec![type_arg(as_type("Local")), type_arg(as_type("int"))]),
        Ok(simple_invoke_ext_sign(
            vec![as_deferred(as_type("int")), gas_type(1)],
            vec![as_type("int")],
        ))
    );
}

#[test]
fn store_wrong_num_of_args() {
    assert_eq!(
        StoreExtension {}.get_signature(&vec![]),
        Err(Error::WrongNumberOfTypeArgs)
    );
}

#[test]
fn store_wrong_arg_type() {
    assert_eq!(
        StoreExtension {}
            .get_signature(&vec![type_arg(as_type("Other")), type_arg(as_type("Some"))]),
        Err(Error::UnsupportedTypeArg)
    );
    assert_eq!(
        StoreExtension {}.get_signature(&vec![val_arg(1), val_arg(1)]),
        Err(Error::UnsupportedTypeArg)
    );
}

#[test]
fn unconditional_jump_legal_usage() {
    assert_eq!(
        UnconditionalJumpExtension {}.get_signature(&vec![]),
        Ok(ExtensionSignature {
            args: vec![gas_type(1)],
            results: vec![vec![]],
            fallthrough: None,
        })
    );
}

#[test]
fn unconditional_jump_wrong_num_of_args() {
    assert_eq!(
        UnconditionalJumpExtension {}.get_signature(&vec![val_arg(1)]),
        Err(Error::WrongNumberOfTypeArgs)
    );
}
