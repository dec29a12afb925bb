use palelc::c::{double_type, float_type, int_type, long_type, void_type, CType};
use palelc::palel::{
    charseq_type, schema_identifier_from_string, schema_type, type_family_of, type_size_of,
    SchemaIdentifier, SchemaType, TypeFamily, TypePostfix,
};

#[test]
fn families_and_widths_by_name() {
    assert_eq!(type_family_of(&"Int64".to_string()), TypeFamily::Int);
    assert_eq!(type_family_of(&"Float32".to_string()), TypeFamily::Float);
    assert_eq!(type_family_of(&"Bool".to_string()), TypeFamily::Other);
    assert_eq!(type_size_of(&"Int32".to_string()), Some(32));
    assert_eq!(type_size_of(&"Float64".to_string()), Some(64));
    assert_eq!(type_size_of(&"Char".to_string()), None);
}

#[test]
fn identifiers_from_names() {
    assert_eq!(schema_identifier_from_string("Float64".to_string()), SchemaIdentifier::Float64);
    assert_eq!(schema_identifier_from_string("Char".to_string()), SchemaIdentifier::Char);
    assert_eq!(
        schema_identifier_from_string("Point".to_string()),
        SchemaIdentifier::UserDefined("Point".to_string())
    );
    assert_eq!(SchemaIdentifier::Int64.to_string(), "Int64");
    assert_eq!(SchemaIdentifier::Int64.family(), TypeFamily::Int);
    assert_eq!(SchemaIdentifier::Float32.size(), Some(32));
}

#[test]
fn set_identifier_updates_family_and_width() {
    let mut s = schema_type(SchemaIdentifier::Bool);
    s.postfix = TypePostfix::Opt;
    s.set_identifier(SchemaIdentifier::Float64);
    assert_eq!(
        s,
        SchemaType {
            identifier: SchemaIdentifier::Float64,
            postfix: TypePostfix::Opt,
            family: TypeFamily::Float,
            width: Some(64),
        }
    );
    assert_eq!(s.to_string(), "Float64?");
    assert_eq!(charseq_type().to_string(), "Char");
}

#[test]
fn c_type_constructors() {
    let t = |n: &str, p: bool| CType { name: n.to_string(), is_pointer: p };
    assert_eq!(void_type(true), t("void", true));
    assert_eq!(int_type(), t("int", false));
    assert_eq!(long_type(), t("long", false));
    assert_eq!(float_type(), t("float", false));
    assert_eq!(double_type(), t("double", false));
}
