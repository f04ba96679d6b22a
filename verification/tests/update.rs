use dynamo_mapper::helpers::expression::operand::op;
use dynamo_mapper::helpers::expression::update;
use dynamo_mapper::helpers::expression::update::if_not_exists;
use dynamo_mapper::helpers::expression::update::list_append;
use dynamo_mapper::helpers::expression::update::remove;
use dynamo_mapper::helpers::expression::update::Update;
use dynamo_mapper::helpers::expression::update::UpdateExpression;

#[test]
fn it_creates_set_value_expression() {
    let expr = op("#x").value(op(":x").into());
    assert_eq!(expr.to_string(), "#x = :x");
}

#[test]
fn it_creates_addition_expression() {
    let expr = op(":a").add(op(":b").into());
    assert_eq!(expr.to_string(), ":a + :b");
}

#[test]
fn it_creates_subtraction_expression() {
    let expr = op(":a").sub(op(":b").into());
    assert_eq!(expr.to_string(), ":a - :b");
}

#[test]
fn it_creates_set_update_expression() {
    let expr = update::set(op("#x").value(op(":x").into()));
    assert_eq!(expr.to_string(), "SET #x = :x");
}

#[test]
fn it_creates_remove_update_expression() {
    let expr = remove(op("#x"));
    assert_eq!(expr.to_string(), "REMOVE #x");
}

#[test]
fn it_creates_add_update_expression() {
    let expr = update::add(op("#x"), op(":x"));
    assert_eq!(expr.to_string(), "ADD #x :x");
}

#[test]
fn it_creates_delete_update_expression() {
    let expr = update::delete(op("#x"), op(":x"));
    assert_eq!(expr.to_string(), "DELETE #x :x");
}

#[test]
fn it_creates_multiple_update_expression() {
    // concats multiple update expression
    let expr = update::set(op("#x").value(op(":x").into()))
        .and(update::set(op("#y").value(op(":y").into())))
        .and(remove(op("#x")))
        .and(remove(op("#y")))
        .and(update::add(op("#x"), op(":x")))
        .and(update::add(op("#y"), op(":y")))
        .and(update::delete(op("#x"), op(":x")))
        .and(update::delete(op("#y"), op(":y")));
    assert_eq!(
        expr.to_string(),
        "SET #x = :x, #y = :y REMOVE #x, #y ADD #x :x, #y :y DELETE #x :x, #y :y",
    );

    let without_set = remove(op("#x"))
        .and(update::add(op("#x"), op(":x")))
        .and(update::delete(op("#x"), op(":x")));
    assert_eq!(without_set.to_string(), "REMOVE #x ADD #x :x DELETE #x :x");

    let without_remove = update::set(op("#x").value(op(":x").into()))
        .and(update::add(op("#x"), op(":x")))
        .and(update::delete(op("#x"), op(":x")));
    assert_eq!(
        without_remove.to_string(),
        "SET #x = :x ADD #x :x DELETE #x :x"
    );

    let without_add = update::set(op("#x").value(op(":x").into()))
        .and(remove(op("#x")))
        .and(update::delete(op("#x"), op(":x")));
    assert_eq!(
        without_add.to_string(),
        "SET #x = :x REMOVE #x DELETE #x :x"
    );

    let without_delete = update::set(op("#x").value(op(":x").into()))
        .and(remove(op("#x")))
        .and(update::add(op("#x"), op(":x")));
    assert_eq!(
        without_delete.to_string(),
        "SET #x = :x REMOVE #x ADD #x :x"
    );
}

#[test]
fn it_creates_list_append_expression() {
    let expr = list_append(op("#list1"), op("#list2"));
    assert_eq!(expr.to_string(), "list_append (#list1, #list2)");
}

#[test]
fn it_create_if_not_exists_expression() {
    let expr = if_not_exists(op("#x"), op(":x"));
    assert_eq!(expr.to_string(), "if_not_exists (#x, :x)");
}

fn part_a() -> UpdateExpression {
    update::set(op("X").value(op("1").into()))
}

fn part_b() -> UpdateExpression {
    remove(op("Y")).and(update::set(op("V").value(op("V").sub(op(":d").into()))))
}

fn part_c() -> UpdateExpression {
    update::add(op("Z"), op("1")).and(update::delete(op("W"), op("2")))
}

#[test]
fn merge_renders_the_same_however_it_is_grouped() {
    let left = part_a().and(part_b()).and(part_c());
    let right = part_a().and(part_b().and(part_c()));
    assert_eq!(left, right);
    assert_eq!(left.to_string(), right.to_string());
    assert_eq!(
        left.to_string(),
        "SET X = 1, V = V - :d REMOVE Y ADD Z 1 DELETE W 2"
    );
}

#[test]
fn merge_of_all_four_kinds() {
    let expr = update::set(op("X").value(op("1").into()))
        .and(remove(op("Y")))
        .and(update::add(op("Z"), op("1")))
        .and(update::delete(op("W"), op("2")));
    assert_eq!(expr.to_string(), "SET X = 1 REMOVE Y ADD Z 1 DELETE W 2");
}

#[test]
fn merge_is_not_commutative() {
    let ab = remove(op("A")).and(remove(op("B")));
    let ba = remove(op("B")).and(remove(op("A")));
    assert_eq!(ab.to_string(), "REMOVE A, B");
    assert_eq!(ba.to_string(), "REMOVE B, A");
}

#[test]
fn empty_update_expression_renders_as_empty_text() {
    assert_eq!(UpdateExpression::new().to_string(), "");
    assert_eq!(UpdateExpression::new().and(UpdateExpression::new()).to_string(), "");
    assert_eq!(UpdateExpression::new().and(remove(op("A"))).to_string(), "REMOVE A");
}

#[test]
fn set_takes_functions_and_arithmetic() {
    let expr = update::set(op("#ri").value(list_append(op("#ri"), op(":vals")).into()));
    assert_eq!(expr.to_string(), "SET #ri = list_append (#ri, :vals)");

    let expr = update::set(op("Price").value(if_not_exists(op("Price"), op(":p")).into()));
    assert_eq!(expr.to_string(), "SET Price = if_not_exists (Price, :p)");

    let expr = update::set(op("Price").value(op("Price").add(if_not_exists(op("Inc"), op(":zero")).into())));
    assert_eq!(expr.to_string(), "SET Price = Price + if_not_exists (Inc, :zero)");

    let expr = update::set(op("Price").value(op("Price").sub(op(":p").into())))
        .and(remove(op("InStock")));
    assert_eq!(expr.to_string(), "SET Price = Price - :p REMOVE InStock");
}

#[test]
fn update_expression_into_string_is_its_text() {
    let build = || update::set(op("RelatedItems[1]").value(op(":newValue").into()))
        .and(update::set(op("Price").value(op(":newPrice").into())));
    let text = build().to_string();
    assert_eq!(String::from(build()), text);
    assert_eq!(text, "SET RelatedItems[1] = :newValue, Price = :newPrice");
}

#[test]
fn update_expression_clone_and_default() {
    let expr = part_a().and(part_b()).and(part_c());
    let copy = expr.clone();
    assert_eq!(copy, expr);
    assert_eq!(copy.to_string(), expr.to_string());
    assert_eq!(UpdateExpression::default(), UpdateExpression::new());
    assert_eq!(UpdateExpression::default().to_string(), "");
}
