use retlist::{
    default_value, Diagnostic, Item, PrintMessage, RetListItem, ReturnsDefault, ReturnsInt,
    ReturnsStr, TypeTag, Value,
};

const TAGS: [TypeTag; 4] = [TypeTag::Unit, TypeTag::Int, TypeTag::Str, TypeTag::Optional];

#[test]
fn default_values() {
    assert_eq!(default_value(TypeTag::Unit), Value::Unit);
    assert_eq!(default_value(TypeTag::Int), Value::Int(0));
    assert_eq!(default_value(TypeTag::Str), Value::Str(""));
    assert_eq!(default_value(TypeTag::Optional), Value::Optional(None));
}

#[test]
fn type_tags_of_values() {
    assert_eq!(Value::Unit.type_tag(), TypeTag::Unit);
    assert_eq!(Value::Int(-3).type_tag(), TypeTag::Int);
    assert_eq!(Value::Str("s").type_tag(), TypeTag::Str);
    assert_eq!(Value::Optional(Some(4)).type_tag(), TypeTag::Optional);
    assert_eq!(Value::Optional(None).type_tag(), TypeTag::Optional);
}

#[test]
fn default_value_has_the_type_asked_for() {
    for tag in TAGS {
        assert_eq!(default_value(tag).type_tag(), tag);
    }
}

#[test]
fn unit_item_fits_everywhere_and_does_nothing() {
    for tag in TAGS {
        let mut out = Vec::new();
        assert!(().accepts(tag));
        assert_eq!(().result_type(tag), TypeTag::Unit);
        assert_eq!(().single_return(tag, &mut out), Value::Unit);
        assert!(out.is_empty());
    }
}

#[test]
fn print_message_reports_its_message() {
    let item = PrintMessage("handling results ...");
    for tag in TAGS {
        let mut out = vec![Diagnostic::ReturningInt(1)];
        assert!(item.accepts(tag));
        assert_eq!(item.result_type(tag), TypeTag::Unit);
        assert_eq!(item.single_return(tag, &mut out), Value::Unit);
        assert_eq!(
            out,
            vec![
                Diagnostic::ReturningInt(1),
                Diagnostic::Message("handling results ...")
            ]
        );
    }
}

#[test]
fn returns_int_fits_integer_chains_only() {
    let item = ReturnsInt(100);
    assert!(item.accepts(TypeTag::Int));
    assert!(!item.accepts(TypeTag::Unit));
    assert!(!item.accepts(TypeTag::Str));
    assert!(!item.accepts(TypeTag::Optional));
    assert_eq!(item.result_type(TypeTag::Int), TypeTag::Int);
    let mut out = Vec::new();
    assert_eq!(item.single_return(TypeTag::Int, &mut out), Value::Int(100));
    assert_eq!(out, vec![Diagnostic::ReturningInt(100)]);
}

#[test]
fn returns_str_fits_integer_chains_only() {
    let item = ReturnsStr("hello!");
    assert!(item.accepts(TypeTag::Int));
    assert!(!item.accepts(TypeTag::Unit));
    assert!(!item.accepts(TypeTag::Str));
    assert!(!item.accepts(TypeTag::Optional));
    assert_eq!(item.result_type(TypeTag::Int), TypeTag::Str);
    let mut out = Vec::new();
    assert_eq!(
        item.single_return(TypeTag::Int, &mut out),
        Value::Str("hello!")
    );
    assert_eq!(out, vec![Diagnostic::ReturningStr("hello!")]);
}

#[test]
fn returns_default_follows_the_context() {
    for tag in TAGS {
        let mut out = Vec::new();
        assert!(ReturnsDefault.accepts(tag));
        assert_eq!(ReturnsDefault.result_type(tag), tag);
        assert_eq!(ReturnsDefault.single_return(tag, &mut out), default_value(tag));
        assert!(out.is_empty());
    }
}

#[test]
fn item_enum_behaves_as_the_item_it_holds() {
    for tag in TAGS {
        let pairs: Vec<(Item, bool, TypeTag, Value, Vec<Diagnostic>)> = vec![
            (Item::Noop, true, TypeTag::Unit, Value::Unit, vec![]),
            (
                Item::Print(PrintMessage("m")),
                true,
                TypeTag::Unit,
                Value::Unit,
                vec![Diagnostic::Message("m")],
            ),
            (
                Item::Str(ReturnsStr("s")),
                tag == TypeTag::Int,
                TypeTag::Str,
                Value::Str("s"),
                vec![Diagnostic::ReturningStr("s")],
            ),
            (
                Item::Int(ReturnsInt(-1)),
                tag == TypeTag::Int,
                TypeTag::Int,
                Value::Int(-1),
                vec![Diagnostic::ReturningInt(-1)],
            ),
            (
                Item::Default(ReturnsDefault),
                true,
                tag,
                default_value(tag),
                vec![],
            ),
        ];
        for (item, accepted, result_type, value, reports) in pairs {
            let mut out = Vec::new();
            assert_eq!(item.accepts(tag), accepted);
            assert_eq!(item.result_type(tag), result_type);
            assert_eq!(item.single_return(tag, &mut out), value);
            assert_eq!(out, reports);
        }
    }
}

#[test]
fn results_have_the_declared_type() {
    let items = [
        Item::Noop,
        Item::Print(PrintMessage("m")),
        Item::Str(ReturnsStr("s")),
        Item::Int(ReturnsInt(1)),
        Item::Default(ReturnsDefault),
    ];
    for tag in TAGS {
        for item in items {
            let mut out = Vec::new();
            assert_eq!(item.single_return(tag, &mut out).type_tag(), item.result_type(tag));
        }
    }
}
