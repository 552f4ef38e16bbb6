use libchisel::dropsection::DropSection;
use libchisel::module::{Module, ModuleSection};
use libchisel::{ModuleError, ModuleTranslator};

fn custom(name: &str, payload: Vec<u8>) -> ModuleSection {
    ModuleSection::Custom { name: name.to_string(), payload }
}

#[test]
fn keep_intact() {
    let mut module = Module::new(Vec::new());
    let name = "empty".to_string();
    let dropper = DropSection::CustomSectionByName(name);
    let did_change = dropper.translate_inplace(&mut module).unwrap();
    assert_eq!(did_change, false);
}

#[test]
fn keep_intact_custom_section() {
    let mut module = Module::new(vec![custom("test", vec![])]);
    let name = "empty".to_string();
    let dropper = DropSection::CustomSectionByName(name);
    let did_change = dropper.translate_inplace(&mut module).unwrap();
    assert_eq!(did_change, false);
}

#[test]
fn remove_custom_section() {
    let mut module = Module::new(vec![custom("test", vec![])]);
    let name = "test".to_string();
    let dropper = DropSection::CustomSectionByName(name);
    let did_change = dropper.translate_inplace(&mut module).unwrap();
    assert_eq!(did_change, true);
}

#[test]
fn remove_custom_section_empties_module() {
    let mut module = Module::new(vec![custom("test", vec![])]);
    let dropper = DropSection::CustomSectionByName("test".to_string());
    assert_eq!(dropper.translate_inplace(&mut module).unwrap(), true);
    assert_eq!(module.len(), 0);
}

#[test]
fn noop_leaves_module_byte_identical() {
    let mut module = Module::new(vec![custom("keep", vec![1, 2, 3])]);
    let before = module.to_bytes().unwrap();
    let dropper = DropSection::CustomSectionByName("absent".to_string());
    assert_eq!(dropper.translate_inplace(&mut module).unwrap(), false);
    let after = module.to_bytes().unwrap();
    assert_eq!(before, after);
}

#[test]
fn first_match_in_index_order_wins() {
    let mut module = Module::new(vec![
        custom("dup", vec![1]),
        custom("other", vec![2]),
        custom("dup", vec![3]),
    ]);
    let dropper = DropSection::CustomSectionByName("dup".to_string());
    assert_eq!(dropper.translate_inplace(&mut module).unwrap(), true);
    let expected = Module::new(vec![custom("other", vec![2]), custom("dup", vec![3])]);
    assert_eq!(
        module.to_bytes().unwrap(),
        expected.to_bytes().unwrap()
    );
}

#[test]
fn drop_by_index_shifts_later_sections_down() {
    let mut module = Module::new(vec![
        custom("a", vec![]),
        custom("b", vec![]),
        custom("c", vec![]),
    ]);
    let dropper = DropSection::CustomSectionByIndex(1);
    assert_eq!(dropper.translate_inplace(&mut module).unwrap(), true);
    assert_eq!(module.len(), 2);
    let expected = Module::new(vec![custom("a", vec![]), custom("c", vec![])]);
    assert_eq!(
        module.to_bytes().unwrap(),
        expected.to_bytes().unwrap()
    );
}

#[test]
fn out_of_bounds_index_is_rejected() {
    let mut module = Module::new(vec![custom("a", vec![]), custom("b", vec![])]);
    let before = module.to_bytes().unwrap();
    let dropper = DropSection::CustomSectionByIndex(7);
    let err = dropper.translate_inplace(&mut module).unwrap_err();
    assert_eq!(err, ModuleError::OutOfBounds);
    assert_eq!(module.len(), 2);
    assert_eq!(module.to_bytes().unwrap(), before);
}

#[test]
fn index_equal_to_length_is_rejected() {
    let mut module = Module::new(vec![custom("a", vec![])]);
    let dropper = DropSection::CustomSectionByIndex(1);
    let err = dropper.translate_inplace(&mut module).unwrap_err();
    assert_eq!(err, ModuleError::OutOfBounds);
    assert_eq!(module.len(), 1);
}

#[test]
fn names_section_is_found_and_removed() {
    let names = parity_wasm::elements::NameSection::new(None, None, None);
    let mut module = Module::new(vec![custom("lead", vec![]), ModuleSection::Name(names)]);
    let dropper = DropSection::NamesSection;
    assert_eq!(dropper.translate_inplace(&mut module).unwrap(), true);
    assert_eq!(module.len(), 1);
}

#[test]
fn names_section_absent_is_a_noop() {
    let mut module = Module::new(vec![custom("lead", vec![])]);
    let dropper = DropSection::NamesSection;
    assert_eq!(dropper.translate_inplace(&mut module).unwrap(), false);
    assert_eq!(module.len(), 1);
}

#[test]
fn unknown_section_dropped_by_index() {
    let mut module = Module::new(vec![ModuleSection::Unknown { id: 0x55, payload: vec![1, 2, 3] }]);
    let dropper = DropSection::UnknownSectionByIndex(0);
    assert_eq!(dropper.translate_inplace(&mut module).unwrap(), true);
    assert_eq!(module.len(), 0);
}

#[test]
fn translate_returns_copy_and_keeps_input() {
    let module = Module::new(vec![custom("test", vec![])]);
    let dropper = DropSection::CustomSectionByName("test".to_string());
    let copy = dropper.translate(&module).unwrap().unwrap();
    assert_eq!(copy.len(), 0);
    assert_eq!(module.len(), 1);
}

#[test]
fn translate_reports_no_change_as_none() {
    let module = Module::new(vec![custom("test", vec![])]);
    let dropper = DropSection::CustomSectionByName("absent".to_string());
    assert!(dropper.translate(&module).unwrap().is_none());
}

#[test]
fn copy_and_inplace_modes_agree() {
    let original = Module::new(vec![
        custom("a", vec![9]),
        custom("b", vec![8]),
        custom("c", vec![7]),
    ]);
    let dropper = DropSection::CustomSectionByName("b".to_string());

    let copied = dropper.translate(&original).unwrap().unwrap();

    let mut cloned = original.clone();
    assert_eq!(dropper.translate_inplace(&mut cloned).unwrap(), true);

    assert_eq!(copied.to_bytes().unwrap(), cloned.to_bytes().unwrap());
}
