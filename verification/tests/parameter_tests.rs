use sbml::{Element, Model, Parameter, ParameterBuilder, SBMLDocument};

#[test]
fn test_parameter_creation() {
    let mut doc = SBMLDocument::default();
    let model = Model::new(&mut doc, "test");
    let parameter = Parameter::new(&mut doc, &model, "test");

    parameter.set_value(&mut doc, (1.0f64).to_bits()).unwrap();
    parameter.set_id(&mut doc, "new_id").unwrap();
    parameter.set_name(&mut doc, "test_name").unwrap();
    parameter.set_constant(&mut doc, true).unwrap();
    parameter.set_units(&mut doc, "mole").unwrap();

    assert_eq!(parameter.id(&doc), "new_id");
    assert_eq!(parameter.name(&doc), "test_name");
    assert_eq!(parameter.constant(&doc), true);
    assert_eq!(parameter.units(&doc), "mole");
    assert_eq!(parameter.value(&doc), Some((1.0f64).to_bits()));
}

#[test]
fn test_parameter_builder() {
    let mut doc = SBMLDocument::default();
    let model = Model::new(&mut doc, "test");
    let builder = ParameterBuilder::new(&mut doc, &model, "test");
    let builder = builder.value(&mut doc, (1.0f64).to_bits());
    let builder = builder.units(&mut doc, "mole");
    let builder = builder.constant(&mut doc, true);
    let parameter = builder.build();

    assert_eq!(parameter.id(&doc), "test");
    assert_eq!(parameter.value(&doc), Some((1.0f64).to_bits()));
    assert_eq!(parameter.units(&doc), "mole");
    assert_eq!(parameter.constant(&doc), true);
}

#[test]
fn test_parameter_annotation() {
    let mut doc = SBMLDocument::default();
    let model = Model::new(&mut doc, "test");
    let parameter = ParameterBuilder::new(&mut doc, &model, "test")
        .annotation(&mut doc, "<test>test</test>")
        .expect("Failed to set annotation")
        .build();
    assert_eq!(
        parameter
            .get_annotation(&doc)
            .replace("\n", "")
            .replace(" ", ""),
        "<annotation><test>test</test></annotation>"
    );
}

#[test]
fn test_parameter_builder_annotation_serde() {
    let mut annotation = Element::new("Test");
    annotation.add_field("test", "test");

    let mut doc = SBMLDocument::default();
    let model = Model::new(&mut doc, "test");
    let parameter = ParameterBuilder::new(&mut doc, &model, "test")
        .annotation_serde(&mut doc, &annotation)
        .expect("Failed to set annotation")
        .build();

    let extracted = parameter
        .get_annotation_serde(&doc, "Test")
        .expect("Failed to get annotation");
    assert_eq!(extracted.get_field("test").unwrap(), "test");
}

#[test]
fn test_parameter_annotation_serde() {
    let mut annotation = Element::new("Test");
    annotation.add_field("test", "test");

    let mut doc = SBMLDocument::default();
    let model = Model::new(&mut doc, "test");
    let parameter = ParameterBuilder::new(&mut doc, &model, "test")
        .annotation_serde(&mut doc, &annotation)
        .unwrap()
        .build();

    parameter
        .set_annotation_serde(&mut doc, &annotation)
        .expect("Failed to set annotation");

    let extracted = parameter
        .get_annotation_serde(&doc, "Test")
        .expect("Failed to get annotation");
    assert_eq!(extracted.get_field("test").unwrap(), "test");
}
