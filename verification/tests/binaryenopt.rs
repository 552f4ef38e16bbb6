use libchisel::binaryenopt::BinaryenOptimiser;
use libchisel::module::{Module, ModuleSection};
use libchisel::{ModuleError, ModulePreset};

fn empty_module() -> Module {
    Module::new(Vec::new())
}

fn module_with_names_section() -> Module {
    let names = parity_wasm::elements::NameSection::new(None, None, None);
    Module::new(vec![ModuleSection::Name(names)])
}

fn config_for(preset: &str, module: &Module) -> (u32, u32, bool) {
    let pass = BinaryenOptimiser::with_preset(preset).unwrap();
    let config = pass.codegen_config(module);
    (config.optimization_level, config.shrink_level, config.debug_info)
}

#[test]
fn preset_keys_map_to_their_levels() {
    assert!(matches!(BinaryenOptimiser::with_preset("O0"), Ok(BinaryenOptimiser::O0)));
    assert!(matches!(BinaryenOptimiser::with_preset("O1"), Ok(BinaryenOptimiser::O1)));
    assert!(matches!(BinaryenOptimiser::with_preset("O2"), Ok(BinaryenOptimiser::O2)));
    assert!(matches!(BinaryenOptimiser::with_preset("O3"), Ok(BinaryenOptimiser::O3)));
    assert!(matches!(BinaryenOptimiser::with_preset("O4"), Ok(BinaryenOptimiser::O4)));
    assert!(matches!(BinaryenOptimiser::with_preset("Os"), Ok(BinaryenOptimiser::Os)));
    assert!(matches!(BinaryenOptimiser::with_preset("Oz"), Ok(BinaryenOptimiser::Oz)));
}

#[test]
fn unknown_preset_keys_are_rejected() {
    assert!(BinaryenOptimiser::with_preset("O5").is_err());
    assert!(BinaryenOptimiser::with_preset("o0").is_err());
    assert!(BinaryenOptimiser::with_preset("").is_err());
    assert!(BinaryenOptimiser::with_preset("baseline").is_err());
}

#[test]
fn config_table_matches_levels() {
    let m = empty_module();
    assert_eq!(config_for("O0", &m), (0, 0, false));
    assert_eq!(config_for("O1", &m), (1, 0, false));
    assert_eq!(config_for("O2", &m), (2, 0, false));
    assert_eq!(config_for("O3", &m), (3, 0, false));
    assert_eq!(config_for("O4", &m), (4, 0, false));
    assert_eq!(config_for("Os", &m), (2, 1, false));
    assert_eq!(config_for("Oz", &m), (2, 2, false));
}

#[test]
fn debug_info_follows_names_section_presence() {
    let with_names = module_with_names_section();
    let without_names = empty_module();
    assert_eq!(config_for("O0", &with_names), (0, 0, true));
    assert_eq!(config_for("Oz", &with_names), (2, 2, true));
    assert_eq!(config_for("O0", &without_names).2, false);
}

#[test]
fn inplace_optimisation_is_not_supported() {
    let pass = BinaryenOptimiser::with_preset("O0").unwrap();
    let mut module = empty_module();
    let err = pass.translate_inplace(&mut module).unwrap_err();
    assert_eq!(err, ModuleError::NotSupported);
    assert_eq!(module.len(), 0);
}

#[test]
fn optimisation_request_serializes_the_module() {
    let pass = BinaryenOptimiser::with_preset("Os").unwrap();
    let module = empty_module();
    let request = pass.optimisation_request(&module).unwrap();
    assert_eq!(request.bytes, module.to_bytes().unwrap());
    assert_eq!(request.config.optimization_level, 2);
    assert_eq!(request.config.shrink_level, 1);
    assert_eq!(request.config.debug_info, false);
}
