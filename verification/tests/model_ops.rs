use d2m::idmap::IdMap;
use d2m::model::{
    AccessModifier, Class, ClassVariant, Comment, Compound, CompoundKind, Define, Enum,
    EnumValue, Function, IngestError, Registry, Variable,
};

#[test]
fn access_modifier_round_trips_through_text() {
    assert_eq!(AccessModifier::from_str("private"), Ok(AccessModifier::PRIVATE));
    assert_eq!(AccessModifier::from_str("protected"), Ok(AccessModifier::PROTECTED));
    assert_eq!(AccessModifier::from_str("public"), Ok(AccessModifier::PUBLIC));
    assert_eq!(
        AccessModifier::from_str("internal"),
        Err(IngestError::UnknownAccessModifier)
    );
    assert_eq!(AccessModifier::PUBLIC.as_text(), "public");
    assert_eq!(AccessModifier::PRIVATE.as_text(), "private");
}

#[test]
fn compound_kinds_cover_the_closed_enumeration() {
    assert_eq!(CompoundKind::from_str("file"), Ok(CompoundKind::FILE));
    assert_eq!(CompoundKind::from_str("dir"), Ok(CompoundKind::DIRECTORY));
    assert_eq!(CompoundKind::from_str("namespace"), Ok(CompoundKind::NAMESPACE));
    assert_eq!(CompoundKind::from_str("class"), Ok(CompoundKind::CLASS));
    assert_eq!(CompoundKind::from_str("struct"), Ok(CompoundKind::STRUCT));
    assert_eq!(CompoundKind::from_str("interface"), Ok(CompoundKind::INTERFACE));
    assert_eq!(CompoundKind::from_str("concept"), Ok(CompoundKind::CONCEPT));
    assert_eq!(CompoundKind::from_str("page"), Ok(CompoundKind::PAGE));
    assert_eq!(CompoundKind::from_str("group"), Ok(CompoundKind::GROUP));
    assert_eq!(CompoundKind::from_str("module"), Err(IngestError::UnknownCompoundKind));
}

#[test]
fn constructors_build_default_entities() {
    let c = Comment::new();
    assert!(c.brief.is_empty());
    assert!(c.details.is_empty());
    assert_eq!(c.returns, "");
    assert_eq!(c.parameters.len(), 0);

    let v = Variable::new();
    assert_eq!(v.name, "?");
    assert_eq!(v.definition, "?");
    assert_eq!(v.access, AccessModifier::PRIVATE);
    assert!(!v.is_constexpr);

    let f = Function::new(true);
    assert_eq!(f.name, "");
    assert!(f.is_member);
    assert!(!Function::new(false).is_member);

    let cl = Class::new(true);
    assert_eq!(cl.unqualified_name, "?");
    assert_eq!(cl.variant, ClassVariant::STRUCT);
    assert!(cl.is_struct());
    assert!(!Class::new(false).is_struct());
    assert_eq!(Class::new_interface().variant, ClassVariant::INTERFACE);

    assert_eq!(Define::new().name, "?");
    assert_eq!(Enum::new().name, "?");
    assert!(!Enum::new().is_scoped);
    assert_eq!(EnumValue::new().initializer, "");

    let compound = Compound::new();
    assert_eq!(compound.kind, CompoundKind::UNKNOWN);
    assert_eq!(compound.name, "?");
    assert_eq!(compound.title, "?");
}

#[test]
fn registry_declares_compounds_by_identifier() {
    let mut reg = Registry::new();
    assert!(reg.compounds.get("c_widget").is_none());
    reg.add_compound("c_widget".to_string(), CompoundKind::CLASS, "Widget".to_string());
    let c = reg.compounds.get("c_widget").unwrap();
    assert_eq!(c.name, "Widget");
    assert_eq!(c.kind, CompoundKind::CLASS);
    assert_eq!(c.title, "?");
    assert!(c.functions.is_empty());
    assert_eq!(reg.compounds.len(), 1);
}

#[test]
fn identifier_map_binds_looks_up_and_removes() {
    let mut m: IdMap<String> = IdMap::new();
    assert_eq!(m.len(), 0);
    assert!(!m.contains_key("a"));

    m.insert("a".to_string(), "1".to_string());
    m.insert("b".to_string(), "2".to_string());
    assert_eq!(m.len(), 2);
    assert_eq!(m.get("a"), Some(&"1".to_string()));
    assert_eq!(m.get("b"), Some(&"2".to_string()));
    assert_eq!(m.get("c"), None);

    m.insert("a".to_string(), "3".to_string());
    assert_eq!(m.len(), 2);
    assert_eq!(m.get("a"), Some(&"3".to_string()));

    let (k, v) = m.pair_at(0);
    assert!(m.contains_key(k.as_str()));
    assert_eq!(m.get(k.as_str()), Some(v));

    assert_eq!(m.remove("a"), Some("3".to_string()));
    assert_eq!(m.remove("a"), None);
    assert_eq!(m.len(), 1);
    assert!(!m.contains_key("a"));
    assert!(m.contains_key("b"));
}
