use sbml::{
    Element, SBMLDocument, SpeciesReference, SpeciesReferenceBuilder, SpeciesReferenceType,
};

#[test]
fn test_create_species_reference() {
    let mut doc = SBMLDocument::new(3, 2);
    let model = doc.create_model("test_model");
    let reaction = model.create_reaction(&mut doc, "test_reaction");
    let species_reference = SpeciesReference::new(
        &mut doc,
        &reaction,
        "test_species",
        SpeciesReferenceType::Reactant,
    );

    species_reference.set_constant(&mut doc, true).unwrap();
    species_reference
        .set_stoichiometry(&mut doc, (1.0f64).to_bits())
        .unwrap();

    assert_eq!(species_reference.species(&doc), "test_species");
    assert_eq!(species_reference.constant(&doc), true);
    assert_eq!(species_reference.stoichiometry(&doc), (1.0f64).to_bits());
}

#[test]
fn test_create_product_species_reference() {
    let mut doc = SBMLDocument::new(3, 2);
    let model = doc.create_model("test_model");
    let reaction = model.create_reaction(&mut doc, "test_reaction");
    let species_reference = SpeciesReference::new(
        &mut doc,
        &reaction,
        "test_species",
        SpeciesReferenceType::Product,
    );

    species_reference.set_constant(&mut doc, true).unwrap();
    species_reference
        .set_stoichiometry(&mut doc, (1.0f64).to_bits())
        .unwrap();

    assert_eq!(species_reference.species(&doc), "test_species");
    assert_eq!(species_reference.constant(&doc), true);
    assert_eq!(species_reference.stoichiometry(&doc), (1.0f64).to_bits());
}

#[test]
fn test_species_reference_builder() {
    let mut doc = SBMLDocument::new(3, 2);
    let model = doc.create_model("test_model");
    let reaction = model.create_reaction(&mut doc, "test_reaction");
    let builder = SpeciesReferenceBuilder::new(
        &mut doc,
        &reaction,
        "test_species",
        SpeciesReferenceType::Reactant,
    );
    let builder = builder.stoichiometry(&mut doc, (1.0f64).to_bits());
    let builder = builder.constant(&mut doc, true);
    let species_reference = builder.build();

    assert_eq!(species_reference.species(&doc), "test_species");
    assert_eq!(species_reference.stoichiometry(&doc), (1.0f64).to_bits());
    assert_eq!(species_reference.constant(&doc), true);
}

#[test]
fn test_species_reference_builder_str_annotation() {
    let mut doc = SBMLDocument::new(3, 2);
    let model = doc.create_model("test_model");
    let reaction = model.create_reaction(&mut doc, "test_reaction");
    let species_reference = SpeciesReferenceBuilder::new(
        &mut doc,
        &reaction,
        "test_species",
        SpeciesReferenceType::Reactant,
    )
    .annotation(&mut doc, "<test>test_annotation</test>")
    .unwrap()
    .build();

    assert_eq!(
        species_reference
            .get_annotation(&doc)
            .replace("\n", "")
            .replace(' ', ""),
        "<annotation><test>test_annotation</test></annotation>"
    );
}

#[test]
fn test_species_reference_builder_serde_annotation() {
    let mut annotation = Element::new("TestAnnotation");
    annotation.add_field("test", "test_annotation");

    let mut doc = SBMLDocument::new(3, 2);
    let model = doc.create_model("test_model");
    let reaction = model.create_reaction(&mut doc, "test_reaction");
    let species_reference = SpeciesReferenceBuilder::new(
        &mut doc,
        &reaction,
        "test_species",
        SpeciesReferenceType::Reactant,
    )
    .annotation_serde(&mut doc, &annotation)
    .unwrap()
    .build();

    let extracted = species_reference
        .get_annotation_serde(&doc, "TestAnnotation")
        .unwrap();
    assert_eq!(extracted.get_field("test").unwrap(), "test_annotation");
}
