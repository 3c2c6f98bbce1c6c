use sbml::{
    Element, Model, Parameter, RateRuleBuilder, Rule, RuleType, SBMLDocument, SbmlError,
    SpeciesReference, SpeciesReferenceType,
};

#[test]
fn test_borrow_exclusivity() {
    let mut doc = SBMLDocument::new(3, 2);
    let model = Model::new(&mut doc, "m");
    let parameter = Parameter::new(&mut doc, &model, "p");
    let base = parameter.upcast();

    base.acquire_read(&mut doc).unwrap();
    assert_eq!(base.acquire_write(&mut doc), Err(SbmlError::BorrowConflict));
    base.release_read(&mut doc);
    assert_eq!(base.acquire_write(&mut doc), Ok(()));
    base.release_write(&mut doc);
}

#[test]
fn test_many_readers_one_writer() {
    let mut doc = SBMLDocument::new(3, 2);
    let model = Model::new(&mut doc, "m");
    let parameter = Parameter::new(&mut doc, &model, "p");
    let base = parameter.upcast();

    base.acquire_read(&mut doc).unwrap();
    base.acquire_read(&mut doc).unwrap();
    assert_eq!(base.acquire_write(&mut doc), Err(SbmlError::BorrowConflict));
    base.release_read(&mut doc);
    assert_eq!(base.acquire_write(&mut doc), Err(SbmlError::BorrowConflict));
    base.release_read(&mut doc);
    base.acquire_write(&mut doc).unwrap();
    assert_eq!(base.acquire_read(&mut doc), Err(SbmlError::BorrowConflict));
    base.release_write(&mut doc);
}

#[test]
fn test_setter_refused_while_borrowed() {
    let mut doc = SBMLDocument::new(3, 2);
    let model = Model::new(&mut doc, "m");
    let parameter = Parameter::new(&mut doc, &model, "p");
    let base = parameter.upcast();

    base.acquire_read(&mut doc).unwrap();
    assert_eq!(
        parameter.set_id(&mut doc, "q"),
        Err(SbmlError::BorrowConflict)
    );
    assert_eq!(parameter.id(&doc), "p");
    base.release_read(&mut doc);
    assert_eq!(parameter.set_id(&mut doc, "q"), Ok(()));
    assert_eq!(parameter.id(&doc), "q");
}

#[test]
fn test_upcast_identity() {
    let mut doc = SBMLDocument::new(3, 2);
    let model = doc.create_model("m");
    let reaction = model.create_reaction(&mut doc, "r");
    let sr = SpeciesReference::new(&mut doc, &reaction, "s1", SpeciesReferenceType::Reactant);

    let before = sr.species(&doc);
    let base = sr.upcast();
    let through_base = base.species(&doc);
    assert_eq!(before, through_base);
    assert_eq!(sr.species(&doc), "s1");
}

#[test]
fn test_upcast_base_mutator() {
    let mut doc = SBMLDocument::new(3, 2);
    let model = doc.create_model("m");
    let reaction = model.create_reaction(&mut doc, "r");
    let sr = reaction.create_reactant(&mut doc, "s1", (2.0f64).to_bits());

    assert_eq!(sr.species(&doc), "s1");
    assert_eq!(sr.stoichiometry(&doc), (2.0f64).to_bits());

    let base = sr.upcast();
    base.set_species(&mut doc, "s2").unwrap();
    assert_eq!(sr.species(&doc), "s2");
}

#[test]
fn test_rule_discriminant() {
    let mut doc = SBMLDocument::new(3, 2);
    let model = Model::new(&mut doc, "m");
    let rate = Rule::new_rate_rule(&mut doc, &model, "a", "a + b");
    let assignment = Rule::new_assignment_rule(&mut doc, &model, "b", "a * 2");

    assert_eq!(rate.rule_type(&doc), Ok(RuleType::RateRule));
    assert_ne!(rate.rule_type(&doc), Ok(RuleType::AssignmentRule));
    assert_eq!(assignment.rule_type(&doc), Ok(RuleType::AssignmentRule));
    assert_ne!(assignment.rule_type(&doc), Ok(RuleType::RateRule));
}

#[test]
fn test_rule_unknown_discriminant() {
    let mut doc = SBMLDocument::new(3, 2);
    let model = Model::new(&mut doc, "m");
    let parameter = Parameter::new(&mut doc, &model, "p");

    let probe = Rule { idx: parameter.idx };
    assert_eq!(
        probe.rule_type(&doc),
        Err(SbmlError::UnknownDiscriminant)
    );
}

#[test]
fn test_end_to_end_parameter() {
    let mut doc = SBMLDocument::new(3, 2);
    let model = doc.create_model("m");
    let p = model.create_parameter(&mut doc, "p");
    p.set_value(&mut doc, (1.0f64).to_bits()).unwrap();
    p.set_units(&mut doc, "mole").unwrap();
    p.set_constant(&mut doc, true).unwrap();

    assert_eq!(p.id(&doc), "p");
    assert_eq!(p.value(&doc), Some((1.0f64).to_bits()));
    assert_eq!(p.units(&doc), "mole");
    assert_eq!(p.constant(&doc), true);
}

#[test]
fn test_annotation_non_interference() {
    let mut doc = SBMLDocument::new(3, 2);
    let model = doc.create_model("m");
    let a = model.create_parameter(&mut doc, "a");
    let b = model.create_parameter(&mut doc, "b");

    b.set_annotation(&mut doc, "<keep>kept</keep>").unwrap();
    let b_before = b.get_annotation(&doc);

    a.set_annotation(&mut doc, "<test>test</test>").unwrap();
    assert_eq!(b.get_annotation(&doc), b_before);
    assert_eq!(
        b.get_annotation(&doc),
        "<annotation><keep>kept</keep></annotation>"
    );
}

#[test]
fn test_annotation_merge_preserves_unrelated() {
    let mut doc = SBMLDocument::new(3, 2);
    let model = doc.create_model("m");
    let rule = RateRuleBuilder::new(&mut doc, &model, "s1", "s1 + s2").build();

    let mut first = Element::new("First");
    first.add_field("test", "x");
    rule.set_annotation_serde(&mut doc, &first).unwrap();
    let first_before = rule.get_annotation_serde(&doc, "First").unwrap();

    let mut second = Element::new("Second");
    second.add_field("other", "y");
    rule.set_annotation_serde(&mut doc, &second).unwrap();

    let first_after = rule.get_annotation_serde(&doc, "First").unwrap();
    assert_eq!(first_after.name, first_before.name);
    assert_eq!(
        first_after.get_field("test").unwrap(),
        first_before.get_field("test").unwrap()
    );
    let second_read = rule.get_annotation_serde(&doc, "Second").unwrap();
    assert_eq!(second_read.get_field("other").unwrap(), "y");
    assert_eq!(
        rule.get_annotation(&doc),
        "<annotation><First><test>x</test></First><Second><other>y</other></Second></annotation>"
    );
}

#[test]
fn test_annotation_replaces_matching_tag() {
    let mut doc = SBMLDocument::new(3, 2);
    let model = doc.create_model("m");
    let p = model.create_parameter(&mut doc, "p");

    let mut v1 = Element::new("Tag");
    v1.add_field("test", "one");
    p.set_annotation_serde(&mut doc, &v1).unwrap();

    let mut v2 = Element::new("Tag");
    v2.add_field("test", "two");
    p.set_annotation_serde(&mut doc, &v2).unwrap();

    let read = p.get_annotation_serde(&doc, "Tag").unwrap();
    assert_eq!(read.get_field("test").unwrap(), "two");
    assert_eq!(
        p.get_annotation(&doc),
        "<annotation><Tag><test>two</test></Tag></annotation>"
    );
}

#[test]
fn test_malformed_markup_is_refused() {
    let mut doc = SBMLDocument::new(3, 2);
    let model = doc.create_model("m");
    let p = model.create_parameter(&mut doc, "p");

    assert_eq!(
        p.set_annotation(&mut doc, "no markup here"),
        Err(SbmlError::MalformedMarkup)
    );
    assert_eq!(
        p.set_annotation(&mut doc, "<open>unclosed"),
        Err(SbmlError::MalformedMarkup)
    );
    assert_eq!(
        p.set_annotation(&mut doc, "<a>t</b>"),
        Err(SbmlError::MalformedMarkup)
    );
    assert_eq!(
        p.set_annotation(&mut doc, "<a>t</a>junk"),
        Err(SbmlError::MalformedMarkup)
    );
    assert_eq!(p.get_annotation(&doc), "");
}

#[test]
fn test_wrapped_annotation_input() {
    let mut doc = SBMLDocument::new(3, 2);
    let model = doc.create_model("m");
    let p = model.create_parameter(&mut doc, "p");

    p.set_annotation(&mut doc, "<annotation><test>test</test></annotation>")
        .unwrap();
    assert_eq!(
        p.get_annotation(&doc),
        "<annotation><test>test</test></annotation>"
    );
}

#[test]
fn test_annotation_not_found_and_schema_mismatch() {
    let mut doc = SBMLDocument::new(3, 2);
    let model = doc.create_model("m");
    let p = model.create_parameter(&mut doc, "p");
    let base = p.upcast();

    assert!(matches!(
        p.get_annotation_serde(&doc, "Missing"),
        Err(SbmlError::AnnotationNotFound)
    ));

    let mut v = Element::new("Tag");
    v.add_field("present", "x");
    p.set_annotation_serde(&mut doc, &v).unwrap();

    assert_eq!(
        base.get_annotation_field(&doc, "Tag", "present").unwrap(),
        "x"
    );
    assert_eq!(
        base.get_annotation_field(&doc, "Tag", "absent"),
        Err(SbmlError::SchemaMismatch)
    );
    assert_eq!(
        base.get_annotation_field(&doc, "Missing", "present"),
        Err(SbmlError::AnnotationNotFound)
    );
}

#[test]
fn test_malformed_element_is_refused() {
    let mut doc = SBMLDocument::new(3, 2);
    let model = doc.create_model("m");
    let p = model.create_parameter(&mut doc, "p");

    let bad_name = Element::new("not a name");
    assert_eq!(
        p.set_annotation_serde(&mut doc, &bad_name),
        Err(SbmlError::MalformedMarkup)
    );

    let mut bad_text = Element::new("Tag");
    bad_text.set_text("a < b");
    assert_eq!(
        p.set_annotation_serde(&mut doc, &bad_text),
        Err(SbmlError::MalformedMarkup)
    );
}

#[test]
fn test_error_messages() {
    assert_eq!(SbmlError::BorrowConflict.message(), "borrow conflict");
    assert_eq!(SbmlError::MalformedMarkup.message(), "malformed markup");
    assert_eq!(
        SbmlError::AnnotationNotFound.message(),
        "annotation not found"
    );
    assert_eq!(SbmlError::SchemaMismatch.message(), "schema mismatch");
    assert_eq!(
        SbmlError::UnknownDiscriminant.message(),
        "unknown discriminant"
    );
}

#[test]
fn test_element_accessors() {
    let mut e = Element::new("Tag");
    assert!(e.is_well_formed());
    e.set_text("plain text");
    assert!(e.is_well_formed());
    e.set_text("");
    e.add_field("a", "1");
    e.add_field("b", "2");
    assert!(e.is_well_formed());
    assert_eq!(e.get_field("a").unwrap(), "1");
    assert_eq!(e.get_field("b").unwrap(), "2");
    assert!(e.get_field("c").is_none());
}

#[test]
fn test_document_version() {
    let doc = SBMLDocument::new(3, 2);
    assert_eq!(doc.major, 3);
    assert_eq!(doc.minor, 2);
    let doc2 = SBMLDocument::default();
    assert_eq!(doc2.major, 3);
    assert_eq!(doc2.minor, 2);
}

#[test]
fn test_raw_annotation_round_trip() {
    let mut doc = SBMLDocument::new(3, 2);
    let model = doc.create_model("m");
    let a = model.create_parameter(&mut doc, "a");
    let b = model.create_parameter(&mut doc, "b");

    a.set_annotation(&mut doc, "<test>t</test>").unwrap();
    let text = a.get_annotation(&doc);
    b.set_annotation(&mut doc, &text).unwrap();
    assert_eq!(b.get_annotation(&doc), text);
}
