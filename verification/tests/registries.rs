use casm_run::extensions::{Error, TemplateArg, TypeInfo, TypeInfoImplementation, TypeRegistry};

#[test]
fn gas_station_registers_its_three_extensions() {
    let names: Vec<String> = casm_run::gas_station::extensions()
        .iter()
        .map(|e| e.0.clone())
        .collect();
    assert_eq!(names, vec!["get_gas", "refund_gas", "split_gas"]);
}

#[test]
fn store_registers_its_five_extensions() {
    let names: Vec<String> = casm_run::store::extensions()
        .iter()
        .map(|e| e.0.clone())
        .collect();
    assert_eq!(
        names,
        vec!["store", "rename", "move", "alloc_locals", "align_temps"]
    );
}

#[test]
fn unconditional_jump_registers_its_extension() {
    let names: Vec<String> = casm_run::unconditional_jump::extensions()
        .iter()
        .map(|e| e.0.clone())
        .collect();
    assert_eq!(names, vec!["jump"]);
}

#[test]
fn gas_station_registers_its_two_types() {
    let registry = TypeRegistry {
        entries: casm_run::gas_station::types(),
    };
    assert_eq!(registry.entries[0].0, "GasBuiltin");
    assert_eq!(registry.entries[1].0, "Gas");
    // The builtin occupies one cell and takes no arguments; the gas amount
    // occupies none and takes one value argument.
    let no_args: Vec<TemplateArg> = vec![];
    let one_value: Vec<TemplateArg> = vec![TemplateArg::Value(7)];
    assert_eq!(
        registry.entries[0].1.get_info(&no_args),
        Ok(TypeInfo { size: 1 })
    );
    assert_eq!(
        registry.entries[0].1.get_info(&one_value),
        Err(Error::WrongNumberOfTypeArgs)
    );
    assert_eq!(
        registry.entries[1].1.get_info(&one_value),
        Ok(TypeInfo { size: 0 })
    );
    assert_eq!(
        registry.entries[1].1.get_info(&no_args),
        Err(Error::WrongNumberOfTypeArgs)
    );
}
