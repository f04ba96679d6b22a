use dynamo_mapper::helpers::expression::operand::op;
use dynamo_mapper::helpers::expression::operand::op_path;
use dynamo_mapper::helpers::expression::Operand;

#[test]
fn op_macro_creates_an_operand() {
    assert_eq!(op("foo"), Operand::new("foo"));
}

#[test]
fn op_macro_creates_an_operand_with_expression() {
    let f = "foobar";
    assert_eq!(op(f), Operand::new("foobar"));
}

#[test]
fn op_macro_creates_an_operand_from_multiple_expression() {
    assert_eq!(op_path(&["foo", "bar"]), Operand::new("foo.bar"));

    let bar = "bar";
    assert_eq!(op_path(&["foo", bar, "baz"]), Operand::new("foo.bar.baz"));
}

#[test]
fn operand_keeps_its_text_verbatim() {
    assert_eq!(Operand::new("RelatedItems[1]").to_string(), "RelatedItems[1]");
    assert_eq!(Operand::new("").to_string(), "");
    assert_eq!(Operand::from_string(String::from("#a b")).to_string(), "#a b");
}

#[test]
fn path_of_one_segment_or_none() {
    assert_eq!(op_path(&["foo"]), Operand::new("foo"));
    assert_eq!(op_path(&[]), Operand::new(""));
}

#[test]
fn operand_clone_is_equal() {
    let a = op("#name");
    assert_eq!(a.clone(), a);
}
