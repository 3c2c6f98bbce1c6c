use sbml::{Element, Model, RateRuleBuilder, Rule, SBMLDocument};

#[test]
fn test_rate_rule_new() {
    let mut doc = SBMLDocument::new(3, 2);
    let model = Model::new(&mut doc, "test");
    let rate_rule = Rule::new_rate_rule(&mut doc, &model, "s1", "s1 + s2");
    assert_eq!(rate_rule.variable(&doc), "s1");
    assert_eq!(rate_rule.formula(&doc), "s1 + s2");
}

#[test]
fn test_rate_rule_builder() {
    let mut doc = SBMLDocument::new(3, 2);
    let model = Model::new(&mut doc, "test");
    let rate_rule = RateRuleBuilder::new(&mut doc, &model, "s1", "s1 + s2")
        .annotation(&mut doc, "<test>test</test>")
        .expect("Failed to set annotation")
        .build();
    assert_eq!(rate_rule.variable(&doc), "s1");
    assert_eq!(rate_rule.formula(&doc), "s1 + s2");
    assert_eq!(
        rate_rule
            .get_annotation(&doc)
            .replace("\n", "")
            .replace(' ', ""),
        "<annotation><test>test</test></annotation>"
    );
}

#[test]
fn test_rate_rule_builder_annotation_serde() {
    let mut annotation = Element::new("TestAnnotation");
    annotation.add_field("test", "test");

    let mut doc = SBMLDocument::new(3, 2);
    let model = Model::new(&mut doc, "test");
    let rate_rule = RateRuleBuilder::new(&mut doc, &model, "s1", "s1 + s2")
        .annotation_serde(&mut doc, &annotation)
        .expect("Failed to set annotation")
        .build();

    assert_eq!(rate_rule.variable(&doc), "s1");
    assert_eq!(rate_rule.formula(&doc), "s1 + s2");
    let extracted = rate_rule.get_annotation_serde(&doc, "TestAnnotation").unwrap();
    assert_eq!(extracted.get_field("test").unwrap(), "test");
}

#[test]
fn test_annotation_serde() {
    let mut annotation = Element::new("TestAnnotation");
    annotation.add_field("test", "test");

    let mut doc = SBMLDocument::new(3, 2);
    let model = Model::new(&mut doc, "test");
    let rate_rule = RateRuleBuilder::new(&mut doc, &model, "s1", "s1 + s2")
        .annotation_serde(&mut doc, &annotation)
        .expect("Failed to set annotation")
        .build();

    let extracted = rate_rule
        .get_annotation_serde(&doc, "TestAnnotation")
        .expect("Failed to deserialize annotation");

    assert_eq!(extracted.get_field("test").unwrap(), "test");
}

#[test]
fn test_annotation() {
    let mut doc = SBMLDocument::new(3, 2);
    let model = Model::new(&mut doc, "test");
    let rate_rule = RateRuleBuilder::new(&mut doc, &model, "s1", "s1 + s2")
        .annotation(&mut doc, "<test>test</test>")
        .expect("Failed to set annotation")
        .build();
    assert_eq!(
        rate_rule
            .get_annotation(&doc)
            .replace("\n", "")
            .replace(' ', ""),
        "<annotation><test>test</test></annotation>"
    );
}
