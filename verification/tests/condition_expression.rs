use dynamo_mapper::helpers::condition_expression::attribute_exists;
use dynamo_mapper::helpers::condition_expression::attribute_not_exists;
use dynamo_mapper::helpers::condition_expression::attribute_type;
use dynamo_mapper::helpers::condition_expression::begins_with;
use dynamo_mapper::helpers::condition_expression::contains;
use dynamo_mapper::helpers::condition_expression::not;
use dynamo_mapper::helpers::condition_expression::size;
use dynamo_mapper::helpers::condition_expression::wrap;
use dynamo_mapper::helpers::condition_expression::Expression;
use dynamo_mapper::helpers::condition_expression::Operand;

fn op(value: &str) -> Operand {
    Operand::new(value)
}

#[test]
fn comparator_eq() {
    let expr = op("#a").eq(op(":v"));
    assert_eq!(expr.to_string(), "#a = :v");
}

#[test]
fn comparator_ne() {
    let expr = op("#a").ne(op(":v"));
    assert_eq!(expr.to_string(), "#a <> :v");
}

#[test]
fn comparator_lt() {
    let expr = op("#a").lt(op(":v"));
    assert_eq!(expr.to_string(), "#a < :v");
}

#[test]
fn comparator_lte() {
    let expr = op("#a").lte(op(":v"));
    assert_eq!(expr.to_string(), "#a <= :v");
}

#[test]
fn comparator_gt() {
    let expr = op("#a").gt(op(":v"));
    assert_eq!(expr.to_string(), "#a > :v");
}

#[test]
fn comparator_gte() {
    let expr = op("#a").gte(op(":v"));
    assert_eq!(expr.to_string(), "#a >= :v");
}

#[test]
fn expr_between() {
    let expr = op("#a").between(op(":x"), op(":y"));
    assert_eq!(expr.to_string(), "#a BETWEEN :x AND :y");
}

#[test]
fn expr_in() {
    let expr = op("#a").any(vec![op(":x"), op(":y")]);
    assert_eq!(expr.to_string(), "#a IN (:x, :y)");
}

#[test]
fn expr_and() {
    let expr0 = op("#a").lt(op(":v"));
    let expr1 = op("#a").gt(op(":x"));
    assert_eq!(expr0.and(expr1).to_string(), "#a < :v AND #a > :x");
}

#[test]
fn expr_or() {
    let expr0 = op("#a").lt(op(":v"));
    let expr1 = op("#a").gt(op(":x"));
    assert_eq!(expr0.or(expr1).to_string(), "#a < :v OR #a > :x");
}

#[test]
fn wrap_expr() {
    let expr = op("#a").lt(op(":v"));
    assert_eq!(wrap(expr).to_string(), "(#a < :v)");
}

#[test]
fn not_expr() {
    let expr = op("#a").lt(op(":v"));
    assert_eq!(not(expr).to_string(), "NOT #a < :v");
}

#[test]
fn function_attribute_exists() {
    assert_eq!(
        attribute_exists(op("#a")).to_string(),
        "attribute_exists (#a)"
    );
}

#[test]
fn function_attribute_not_exists() {
    assert_eq!(
        attribute_not_exists(op("#a")).to_string(),
        "attribute_not_exists (#a)"
    );
}

#[test]
fn function_attribute_type() {
    assert_eq!(
        attribute_type(op("#a"), op(":v")).to_string(),
        "attribute_type (#a, :v)"
    );
}

#[test]
fn function_begins_with() {
    assert_eq!(
        begins_with(op("#a"), op(":v")).to_string(),
        "begins_with (#a, :v)"
    );
}

#[test]
fn function_contains() {
    assert_eq!(
        contains(op("#a"), op(":v")).to_string(),
        "contains (#a, :v)"
    );
}

#[test]
fn function_size() {
    assert_eq!(size(op("#a")).to_string(), "size (#a)");
}

#[test]
fn text_expression_in_with_no_value_is_passed_through() {
    let expr = op("#a").any(vec![]);
    assert_eq!(expr.to_string(), "#a IN ()");
}

#[test]
fn text_expression_nests_with_parentheses() {
    let expr_0 = op("#a").eq(op("5"));
    let expr_1 = op("#b").eq(op(":val"));
    let expr_2 = op("#c").eq(op("0"));
    let expr = wrap(expr_0.or(expr_1)).and(expr_2);
    assert_eq!(expr.to_string(), "(#a = 5 OR #b = :val) AND #c = 0");
}

#[test]
fn text_expression_into_string_is_its_text() {
    let expr: Expression = size(op("Brand")).lte(op(":v_sub"));
    let text = expr.to_string();
    assert_eq!(String::from(expr), text);
    assert_eq!(text, "size (Brand) <= :v_sub");
}
