use retlist::{
    new_list, BuildError, Diagnostic, Item, ListWrapper, PrintMessage, ReturnsDefault, ReturnsInt,
    ReturnsStr, Sequence, TypeTag, Unpacked, Value, MAX_ARITY,
};

fn int_chain() -> ListWrapper<Sequence<Item>> {
    new_list()
        .original_marker(TypeTag::Int)
        .push_ret(Item::Int(ReturnsInt(100)))
        .unwrap()
        .push_ret(Item::Int(ReturnsInt(200)))
        .unwrap()
        .push_ret(Item::Str(ReturnsStr("hello!")))
        .unwrap()
        .handle_result(Item::Noop)
        .unwrap()
        .handle_result(Item::Print(PrintMessage("handling results ...")))
        .unwrap()
        .push_ret(Item::Default(ReturnsDefault))
        .unwrap()
        .push_ret(Item::Int(ReturnsInt(300)))
        .unwrap()
}

#[test]
fn mixed_chain_evaluates_to_five_tuple() {
    let list = int_chain();
    let mut out = Vec::new();
    assert_eq!(
        list.eval(&mut out),
        Unpacked::Tuple(vec![
            Value::Int(100),
            Value::Int(200),
            Value::Str("hello!"),
            Value::Int(0),
            Value::Int(300),
        ])
    );
}

#[test]
fn mixed_chain_reports_in_push_order() {
    let list = int_chain();
    let mut out = Vec::new();
    list.eval(&mut out);
    assert_eq!(
        out,
        vec![
            Diagnostic::ReturningInt(100),
            Diagnostic::ReturningInt(200),
            Diagnostic::ReturningStr("hello!"),
            Diagnostic::Message("handling results ..."),
            Diagnostic::ReturningInt(300),
        ]
    );
}

#[test]
fn single_default_of_optional_is_absent_and_bare() {
    let list = new_list()
        .original_marker(TypeTag::Optional)
        .push_ret(ReturnsDefault)
        .unwrap();
    let mut out = Vec::new();
    assert_eq!(list.eval(&mut out), Unpacked::Single(Value::Optional(None)));
    assert!(out.is_empty());
}

#[test]
fn single_default_of_str_is_empty_string() {
    let list = new_list()
        .original_marker(TypeTag::Str)
        .push_ret(ReturnsDefault)
        .unwrap();
    let mut out = Vec::new();
    assert_eq!(list.eval(&mut out), Unpacked::Single(Value::Str("")));
}

#[test]
fn no_items_after_fixing_context_gives_unit() {
    let list = new_list().original_marker(TypeTag::Int);
    let mut out = Vec::new();
    assert_eq!(list.eval(&mut out), Unpacked::Unit);
    assert!(out.is_empty());
}

#[test]
fn fresh_chain_gives_unit() {
    let list = new_list();
    let mut out = Vec::new();
    assert_eq!(list.eval(&mut out), Unpacked::Unit);
}

#[test]
fn chain_without_fixed_context_has_unit_context() {
    let list = new_list().push_ret(ReturnsDefault).unwrap();
    let mut out = Vec::new();
    assert_eq!(list.eval(&mut out), Unpacked::Single(Value::Unit));
}

#[test]
fn one_contributing_item_is_not_wrapped() {
    let list = new_list()
        .original_marker(TypeTag::Int)
        .handle_result(Item::Noop)
        .unwrap()
        .push_ret(Item::Int(ReturnsInt(7)))
        .unwrap()
        .handle_result(Item::Print(PrintMessage("after")))
        .unwrap();
    let mut out = Vec::new();
    assert_eq!(list.eval(&mut out), Unpacked::Single(Value::Int(7)));
}

#[test]
fn two_contributing_items_give_a_pair_in_push_order() {
    let list = new_list()
        .original_marker(TypeTag::Int)
        .push_ret(Item::Int(ReturnsInt(1)))
        .unwrap()
        .push_ret(Item::Int(ReturnsInt(2)))
        .unwrap();
    let mut out = Vec::new();
    assert_eq!(
        list.eval(&mut out),
        Unpacked::Tuple(vec![Value::Int(1), Value::Int(2)])
    );
}

#[test]
fn suppressing_items_do_not_move_or_add_results() {
    let plain = new_list()
        .original_marker(TypeTag::Int)
        .push_ret(Item::Int(ReturnsInt(1)))
        .unwrap()
        .push_ret(Item::Str(ReturnsStr("two")))
        .unwrap()
        .push_ret(Item::Int(ReturnsInt(3)))
        .unwrap();
    let interleaved = new_list()
        .original_marker(TypeTag::Int)
        .handle_result(Item::Noop)
        .unwrap()
        .push_ret(Item::Int(ReturnsInt(1)))
        .unwrap()
        .handle_result(Item::Print(PrintMessage("a")))
        .unwrap()
        .handle_result(Item::Print(PrintMessage("b")))
        .unwrap()
        .push_ret(Item::Str(ReturnsStr("two")))
        .unwrap()
        .push_ret(Item::Int(ReturnsInt(3)))
        .unwrap()
        .handle_result(Item::Noop)
        .unwrap();
    let mut out = Vec::new();
    let expected = Unpacked::Tuple(vec![Value::Int(1), Value::Str("two"), Value::Int(3)]);
    assert_eq!(plain.eval(&mut out), expected);
    assert_eq!(interleaved.eval(&mut out), expected);
}

#[test]
fn only_suppressing_items_give_unit_but_still_report() {
    let list = new_list()
        .original_marker(TypeTag::Str)
        .handle_result(PrintMessage("one"))
        .unwrap()
        .handle_result(PrintMessage("two"))
        .unwrap();
    let mut out = Vec::new();
    assert_eq!(list.eval(&mut out), Unpacked::Unit);
    assert_eq!(
        out,
        vec![Diagnostic::Message("one"), Diagnostic::Message("two")]
    );
}

#[test]
fn evaluating_twice_gives_equal_values_and_runs_items_again() {
    let list = int_chain();
    let mut out = Vec::new();
    let first = list.eval(&mut out);
    let after_first = out.clone();
    let second = list.eval(&mut out);
    assert_eq!(first, second);
    assert_eq!(after_first.len(), 5);
    assert_eq!(out.len(), 10);
    assert_eq!(&out[..5], &after_first[..]);
    assert_eq!(&out[5..], &after_first[..]);
}

#[test]
fn eval_keeps_what_the_log_already_holds() {
    let list = new_list()
        .original_marker(TypeTag::Int)
        .push_ret(ReturnsInt(5))
        .unwrap();
    let mut out = vec![Diagnostic::Message("earlier")];
    list.eval(&mut out);
    assert_eq!(
        out,
        vec![Diagnostic::Message("earlier"), Diagnostic::ReturningInt(5)]
    );
}

#[test]
fn item_for_another_context_is_turned_down() {
    let pushed = new_list()
        .original_marker(TypeTag::Str)
        .push_ret(ReturnsInt(1));
    assert_eq!(pushed.err(), Some(BuildError::ContextMismatch));
    let pushed = new_list().push_ret(ReturnsStr("x"));
    assert_eq!(pushed.err(), Some(BuildError::ContextMismatch));
}

#[test]
fn context_stays_fixed_across_pushes() {
    let list = new_list()
        .original_marker(TypeTag::Optional)
        .push_ret(Item::Default(ReturnsDefault))
        .unwrap()
        .handle_result(Item::Noop)
        .unwrap();
    assert_eq!(
        list.push_ret(Item::Int(ReturnsInt(1))).err(),
        Some(BuildError::ContextMismatch)
    );
    let list = new_list()
        .original_marker(TypeTag::Optional)
        .push_ret(Item::Default(ReturnsDefault))
        .unwrap()
        .handle_result(Item::Noop)
        .unwrap()
        .push_ret(Item::Default(ReturnsDefault))
        .unwrap();
    let mut out = Vec::new();
    assert_eq!(
        list.eval(&mut out),
        Unpacked::Tuple(vec![Value::Optional(None), Value::Optional(None)])
    );
}

#[test]
fn suppressing_push_of_an_item_with_a_result_is_turned_down() {
    let pushed = new_list()
        .original_marker(TypeTag::Int)
        .handle_result(ReturnsInt(1));
    assert_eq!(pushed.err(), Some(BuildError::NonEmptyResult));
    let pushed = new_list()
        .original_marker(TypeTag::Int)
        .handle_result(ReturnsDefault);
    assert_eq!(pushed.err(), Some(BuildError::NonEmptyResult));
}

#[test]
fn suppressing_push_checks_the_context_first() {
    let pushed = new_list()
        .original_marker(TypeTag::Str)
        .handle_result(ReturnsInt(1));
    assert_eq!(pushed.err(), Some(BuildError::ContextMismatch));
}

#[test]
fn default_item_may_be_suppressed_where_its_result_is_empty() {
    let list = new_list()
        .original_marker(TypeTag::Unit)
        .handle_result(ReturnsDefault)
        .unwrap();
    let mut out = Vec::new();
    assert_eq!(list.eval(&mut out), Unpacked::Unit);
}

#[test]
fn unit_result_may_contribute() {
    let list = new_list()
        .original_marker(TypeTag::Int)
        .push_ret(Item::Noop)
        .unwrap()
        .push_ret(Item::Int(ReturnsInt(1)))
        .unwrap();
    let mut out = Vec::new();
    assert_eq!(
        list.eval(&mut out),
        Unpacked::Tuple(vec![Value::Unit, Value::Int(1)])
    );
}

#[test]
fn aggregate_takes_the_largest_arity_and_no_more() {
    let mut list = new_list()
        .original_marker(TypeTag::Int)
        .push_ret(ReturnsInt(0))
        .unwrap();
    for i in 1..MAX_ARITY {
        list = list.push_ret(ReturnsInt(i as i32)).unwrap();
    }
    let mut out = Vec::new();
    let expected: Vec<Value> = (0..MAX_ARITY).map(|i| Value::Int(i as i32)).collect();
    assert_eq!(list.eval(&mut out), Unpacked::Tuple(expected));
    assert_eq!(
        list.push_ret(ReturnsInt(16)).err(),
        Some(BuildError::ArityExceeded)
    );
}

#[test]
fn full_aggregate_still_takes_suppressing_items() {
    let mut list = new_list()
        .original_marker(TypeTag::Int)
        .push_ret(Item::Int(ReturnsInt(0)))
        .unwrap();
    for i in 1..MAX_ARITY {
        list = list.push_ret(Item::Int(ReturnsInt(i as i32))).unwrap();
    }
    let list = list.handle_result(Item::Print(PrintMessage("full"))).unwrap();
    let mut out = Vec::new();
    let expected: Vec<Value> = (0..MAX_ARITY).map(|i| Value::Int(i as i32)).collect();
    assert_eq!(list.eval(&mut out), Unpacked::Tuple(expected));
    assert_eq!(out.len(), MAX_ARITY + 1);
    assert_eq!(out[MAX_ARITY], Diagnostic::Message("full"));
}

#[test]
fn mismatch_is_reported_before_a_full_aggregate() {
    let mut list = new_list()
        .original_marker(TypeTag::Str)
        .push_ret(Item::Default(ReturnsDefault))
        .unwrap();
    for _ in 1..MAX_ARITY {
        list = list.push_ret(Item::Default(ReturnsDefault)).unwrap();
    }
    assert_eq!(
        list.push_ret(Item::Int(ReturnsInt(1))).err(),
        Some(BuildError::ContextMismatch)
    );
}

#[test]
fn many_suppressing_items_are_accepted() {
    let mut list = new_list()
        .original_marker(TypeTag::Int)
        .handle_result(Item::Noop)
        .unwrap();
    for _ in 0..100 {
        list = list.handle_result(Item::Print(PrintMessage("x"))).unwrap();
    }
    let list = list.push_ret(Item::Int(ReturnsInt(9))).unwrap();
    let mut out = Vec::new();
    assert_eq!(list.eval(&mut out), Unpacked::Single(Value::Int(9)));
    assert_eq!(out.len(), 101);
}

#[test]
fn context_and_arity_can_be_asked_for() {
    let list = new_list();
    assert_eq!(list.original(), TypeTag::Unit);
    assert_eq!(list.arity(), 0);
    let list = list.original_marker(TypeTag::Int);
    assert_eq!(list.original(), TypeTag::Int);
    assert_eq!(list.arity(), 0);
    let list = int_chain();
    assert_eq!(list.original(), TypeTag::Int);
    assert_eq!(list.arity(), 5);
}

#[test]
fn context_is_the_same_after_every_push() {
    let list = new_list().original_marker(TypeTag::Optional);
    assert_eq!(list.original(), TypeTag::Optional);
    let list = list.push_ret(Item::Default(ReturnsDefault)).unwrap();
    assert_eq!(list.original(), TypeTag::Optional);
    let list = list.handle_result(Item::Noop).unwrap();
    assert_eq!(list.original(), TypeTag::Optional);
    let list = list.push_ret(Item::Noop).unwrap();
    assert_eq!(list.original(), TypeTag::Optional);
    assert_eq!(list.arity(), 2);
}
