use palelc::palel::{
    bool_type, float32_type, float64_type, int32_type, int64_type, ExpressionType, Literal,
    MemoryModifier, SchemaIdentifier, SchemaType, Type, TypeFamily, TypePostfix,
};
use palelc::type_checking::{
    can_implicitly_convert, determine_variable_type, is_valid_expression_assignment,
    type_of_expression,
};

fn with_postfix(typ: SchemaType, postfix: TypePostfix) -> SchemaType {
    SchemaType {
        identifier: typ.identifier,
        postfix: postfix,
        family: typ.family,
        width: typ.width,
    }
}

fn null_into(to: SchemaType) -> bool {
    is_valid_expression_assignment(&Type::Dim(to), &ExpressionType::Null)
}

#[test]
fn test_same_types() {
    assert!(can_implicitly_convert(&int32_type(), &int32_type()));
    assert!(can_implicitly_convert(&int64_type(), &int64_type()));
    assert!(can_implicitly_convert(&float32_type(), &float32_type()));
    assert!(can_implicitly_convert(&float64_type(), &float64_type()));
    assert!(can_implicitly_convert(&bool_type(), &bool_type()));
}

#[test]
fn test_null() {
    assert!(!null_into(int32_type()));
    assert!(!null_into(int64_type()));
    assert!(!null_into(float32_type()));
    assert!(!null_into(float64_type()));

    assert!(null_into(with_postfix(int32_type(), TypePostfix::Opt)));
    assert!(null_into(with_postfix(int64_type(), TypePostfix::Opt)));
    assert!(null_into(with_postfix(float32_type(), TypePostfix::Opt)));
    assert!(null_into(with_postfix(float64_type(), TypePostfix::Opt)));
}

#[test]
fn test_widening() {
    assert!(can_implicitly_convert(&int64_type(), &int32_type()));
    assert!(can_implicitly_convert(&float64_type(), &float32_type()));

    assert!(!can_implicitly_convert(&int32_type(), &int64_type()));
    assert!(!can_implicitly_convert(&float32_type(), &float64_type()));
}

#[test]
fn test_incompatible() {
    assert!(!can_implicitly_convert(&int64_type(), &float64_type()));
    assert!(!can_implicitly_convert(&float64_type(), &int64_type()));
    assert!(!can_implicitly_convert(&bool_type(), &int64_type()));
    assert!(!can_implicitly_convert(&float64_type(), &bool_type()));
}

fn all_builtins() -> Vec<SchemaType> {
    vec![int32_type(), int64_type(), float32_type(), float64_type(), bool_type()]
}

#[test]
fn same_dim_type_is_assignable() {
    for s in all_builtins() {
        let from = ExpressionType::Dim(s.clone());
        assert!(is_valid_expression_assignment(&Type::Dim(s), &from));
    }
}

#[test]
fn widening_through_assignment() {
    let dim = |s: SchemaType| Type::Dim(s);
    let val = |s: SchemaType| ExpressionType::Dim(s);
    assert!(is_valid_expression_assignment(&dim(int64_type()), &val(int32_type())));
    assert!(is_valid_expression_assignment(&dim(float64_type()), &val(float32_type())));
    assert!(!is_valid_expression_assignment(&dim(int32_type()), &val(int64_type())));
    assert!(!is_valid_expression_assignment(&dim(float32_type()), &val(float64_type())));
}

#[test]
fn null_needs_optional_schema() {
    for s in all_builtins() {
        assert!(!null_into(s.clone()));
        assert!(null_into(with_postfix(s, TypePostfix::Opt)));
    }
    assert!(!null_into(with_postfix(int32_type(), TypePostfix::Error)));
}

#[test]
fn families_do_not_mix() {
    assert!(!is_valid_expression_assignment(
        &Type::Dim(int64_type()),
        &ExpressionType::Dim(float64_type())
    ));
    assert!(!is_valid_expression_assignment(
        &Type::Ref(float32_type()),
        &ExpressionType::Dim(int32_type())
    ));
    assert!(!is_valid_expression_assignment(
        &Type::Dim(bool_type()),
        &ExpressionType::Dim(int32_type())
    ));
}

#[test]
fn untyped_address_accepts_everything() {
    let to = Type::Addr(None);
    assert!(is_valid_expression_assignment(&to, &ExpressionType::Null));
    assert!(is_valid_expression_assignment(&to, &ExpressionType::Addr(None)));
    assert!(is_valid_expression_assignment(&to, &ExpressionType::Dim(bool_type())));
    assert!(is_valid_expression_assignment(&to, &ExpressionType::Ref(float64_type())));
}

#[test]
fn cross_class_assignments() {
    let i32t = || int32_type();
    assert!(!is_valid_expression_assignment(&Type::Addr(Some(i32t())), &ExpressionType::Addr(None)));
    assert!(is_valid_expression_assignment(&Type::Addr(Some(i32t())), &ExpressionType::Ref(i32t())));
    assert!(!is_valid_expression_assignment(&Type::Ref(i32t()), &ExpressionType::Addr(Some(i32t()))));
    assert!(is_valid_expression_assignment(&Type::Ref(i32t()), &ExpressionType::Dim(i32t())));
    assert!(!is_valid_expression_assignment(&Type::Dim(i32t()), &ExpressionType::Ref(i32t())));
    assert!(!is_valid_expression_assignment(&Type::Dim(i32t()), &ExpressionType::Addr(None)));
}

#[test]
fn user_types_need_identity() {
    let user = |n: &str| SchemaType {
        identifier: SchemaIdentifier::UserDefined(n.to_string()),
        postfix: TypePostfix::Plain,
        family: TypeFamily::Other,
        width: None,
    };
    assert!(can_implicitly_convert(&user("Point"), &user("Point")));
    assert!(!can_implicitly_convert(&user("Point"), &user("Vector")));
}

#[test]
fn literal_types() {
    let ty = |l: Literal| type_of_expression(&l.to_expression()).unwrap();
    assert_eq!(ty(Literal::Boolean(true)), ExpressionType::Dim(bool_type()));
    assert_eq!(ty(Literal::Number("6.2".to_string())), ExpressionType::Dim(float64_type()));
    assert_eq!(ty(Literal::Number("-5".to_string())), ExpressionType::Dim(int32_type()));
    assert_eq!(ty(Literal::Null), ExpressionType::Null);
    assert_eq!(
        ty(Literal::String("x".to_string())),
        ExpressionType::Dim(palelc::palel::charseq_type())
    );
}

#[test]
fn variable_types() {
    let num = |t: &str| Literal::Number(t.to_string()).to_expression();
    assert_eq!(
        determine_variable_type(MemoryModifier::Dim, None, &num("1")),
        Some(Type::Dim(int32_type()))
    );
    assert_eq!(
        determine_variable_type(MemoryModifier::Var, None, &num("1.5")),
        Some(Type::Dim(float64_type()))
    );
    assert_eq!(
        determine_variable_type(MemoryModifier::Ref, None, &num("2")),
        Some(Type::Ref(int32_type()))
    );
    assert_eq!(
        determine_variable_type(MemoryModifier::Addr, None, &num("4")),
        Some(Type::Addr(None))
    );
    assert_eq!(
        determine_variable_type(MemoryModifier::Ref, Some(int64_type()), &num("4")),
        Some(Type::Ref(int64_type()))
    );
    assert_eq!(
        determine_variable_type(MemoryModifier::Dim, None, &Literal::Null.to_expression()),
        None
    );
    assert_eq!(
        determine_variable_type(MemoryModifier::Ref, None, &Literal::Null.to_expression()),
        None
    );
}

#[test]
fn type_text() {
    let opt = with_postfix(int32_type(), TypePostfix::Opt);
    assert_eq!(Type::Dim(opt).to_string(), "dim Int32?");
    assert_eq!(Type::Ref(with_postfix(bool_type(), TypePostfix::Error)).to_string(), "ref Bool!");
    assert_eq!(Type::Addr(None).to_string(), "addr");
    assert_eq!(Type::Addr(Some(int32_type())).to_string(), "addr Int32");
    assert_eq!(ExpressionType::Addr(None).to_string(), "addr");
    assert_eq!(ExpressionType::Null.to_string(), "null");
}
