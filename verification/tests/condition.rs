use dynamo_mapper::helpers::expression::condition::attribute_exists;
use dynamo_mapper::helpers::expression::condition::attribute_not_exists;
use dynamo_mapper::helpers::expression::condition::attribute_type;
use dynamo_mapper::helpers::expression::condition::begins_with;
use dynamo_mapper::helpers::expression::condition::contains;
use dynamo_mapper::helpers::expression::condition::not;
use dynamo_mapper::helpers::expression::condition::paren;
use dynamo_mapper::helpers::expression::condition::size;
use dynamo_mapper::helpers::expression::condition::Comperator;
use dynamo_mapper::helpers::expression::condition::Condition;
use dynamo_mapper::helpers::expression::condition::ConditionExpression;
use dynamo_mapper::helpers::expression::operand::op;
use dynamo_mapper::helpers::expression::operand::op_path;

#[test]
fn it_creates_equal_to_condition() {
    let expr = op("#x").equal(op(":x"));
    assert_eq!(expr.to_string(), "#x = :x");
}

#[test]
fn it_creates_not_equal_to_condition() {
    let expr = op("#x").ne(op(":x"));
    assert_eq!(expr.to_string(), "#x <> :x");
}

#[test]
fn it_creates_less_than_condition() {
    let expr = op("#x").lt(op(":x"));
    assert_eq!(expr.to_string(), "#x < :x");
}

#[test]
fn it_creates_less_than_or_equal_to_condition() {
    let expr = op("#x").lte(op(":x"));
    assert_eq!(expr.to_string(), "#x <= :x");
}

#[test]
fn it_creates_greater_than_condition() {
    let expr = op("#x").gt(op(":x"));
    assert_eq!(expr.to_string(), "#x > :x");
}

#[test]
fn it_creates_greater_than_or_equal_to_condition() {
    let expr = op("#x").gte(op(":x"));
    assert_eq!(expr.to_string(), "#x >= :x");
}

#[test]
fn it_creates_between_a_and_b_condition() {
    let expr = op("#x").between(op(":a"), op(":b"));
    assert_eq!(expr.to_string(), "#x BETWEEN :a AND :b");
}

#[test]
fn it_creates_in_any_of_the_values_condition() {
    let expr = op("#x").any(vec![op(":a"), op(":b")]);
    assert_eq!(expr.to_string(), "#x IN (:a, :b)");
}

#[test]
fn it_creates_attribute_exists_condition() {
    let expr = attribute_exists(op("#x"));
    assert_eq!(expr.to_string(), "attribute_exists (#x)");
}

#[test]
fn it_creates_attribute_not_exists_condition() {
    let expr = attribute_not_exists(op("#x"));
    assert_eq!(expr.to_string(), "attribute_not_exists (#x)");
}

#[test]
fn it_creates_attribute_type_condition() {
    let expr = attribute_type(op("#x"), op(":y"));
    assert_eq!(expr.to_string(), "attribute_type (#x, :y)");
}

#[test]
fn it_creates_begins_with_condition() {
    let expr = begins_with(op("#x"), op(":y"));
    assert_eq!(expr.to_string(), "begins_with (#x, :y)");
}

#[test]
fn it_creates_contains_condition() {
    let expr = contains(op("#x"), op(":y"));
    assert_eq!(expr.to_string(), "contains (#x, :y)");
}

#[test]
fn it_concates_expressions_with_and_operator() {
    let expr_0 = op("#x").equal(op(":x"));
    let expr_1 = attribute_exists(op("#y"));
    assert_eq!(
        expr_0.and(expr_1).to_string(),
        "#x = :x AND attribute_exists (#y)"
    );
}

#[test]
fn it_concates_expressions_with_or_operator() {
    let expr_0 = op("#x").equal(op(":x"));
    let expr_1 = attribute_exists(op("#y"));
    assert_eq!(
        expr_0.or(expr_1).to_string(),
        "#x = :x OR attribute_exists (#y)"
    );
}

#[test]
fn it_creates_denial_expression() {
    let expr = op("#x").equal(op(":x"));
    assert_eq!(not(expr).to_string(), "NOT #x = :x");
}

#[test]
fn it_wraps_any_expression_with_parentheses() {
    let expr = op("#x").equal(op(":x"));
    assert_eq!(paren(expr).to_string(), "(#x = :x)");
}

#[test]
fn comperator_table_is_exact() {
    assert_eq!(Comperator::Eq.to_string(), "=");
    assert_eq!(Comperator::Ne.to_string(), "<>");
    assert_eq!(Comperator::Lt.to_string(), "<");
    assert_eq!(Comperator::Lte.to_string(), "<=");
    assert_eq!(Comperator::Gt.to_string(), ">");
    assert_eq!(Comperator::Gte.to_string(), ">=");
}

#[test]
fn rendering_twice_gives_the_same_text() {
    let expr = paren(op("#x").equal(op(":x")).or(op("#y").equal(op(":y")))).and(op("#z").equal(op(":z")));
    let first = expr.to_string();
    let second = expr.to_string();
    assert_eq!(first, second);
    assert_eq!(first, "(#x = :x OR #y = :y) AND #z = :z");
}

#[test]
fn and_never_adds_parentheses() {
    let left = op("#a").lt(op(":a")).or(op("#b").gt(op(":b")));
    let right = op("#c").equal(op(":c")).or(op("#d").ne(op(":d")));
    let left_text = left.to_string();
    let right_text = right.to_string();
    assert_eq!(
        left.and(right).to_string(),
        format!("{} AND {}", left_text, right_text)
    );
}

#[test]
fn not_and_paren_nest() {
    let expr = not(paren(not(paren(attribute_exists(op("#a"))))));
    assert_eq!(expr.to_string(), "NOT (NOT (attribute_exists (#a)))");
}

#[test]
fn in_with_no_value_is_passed_through() {
    let expr = op("#x").any(vec![]);
    assert_eq!(expr.to_string(), "#x IN ()");
}

#[test]
fn in_with_one_value_has_no_separator() {
    let expr = op("#x").any(vec![op(":a")]);
    assert_eq!(expr.to_string(), "#x IN (:a)");
}

#[test]
fn size_is_an_operand_for_a_further_comparison() {
    let expr = size(op("Brand")).lte(op(":v_sub"));
    assert_eq!(expr.to_string(), "size (Brand) <= :v_sub");
}

#[test]
fn predicates_keep_the_space_before_the_parenthesis() {
    assert_eq!(
        attribute_exists(op_path(&["#Pictures", "#SideView"])).to_string(),
        "attribute_exists (#Pictures.#SideView)"
    );
    assert_eq!(
        attribute_type(op_path(&["ProductReviews", "FiveStar"]), op(":v_sub")).to_string(),
        "attribute_type (ProductReviews.FiveStar, :v_sub)"
    );
}

#[test]
fn condition_into_string_is_its_text() {
    let build = || not(op("#x").between(op(":a"), op(":b"))).or(contains(op("#y"), op(":y")));
    let text = build().to_string();
    assert_eq!(String::from(build()), text);
    assert_eq!(text, "NOT #x BETWEEN :a AND :b OR contains (#y, :y)");
}

#[test]
fn and_builds_a_tree_node() {
    let expr = op("#x").equal(op(":x")).and(op("#y").equal(op(":y")));
    let expected = ConditionExpression::And {
        left: Box::new(op("#x").equal(op(":x"))),
        right: Box::new(op("#y").equal(op(":y"))),
    };
    assert_eq!(expr, expected);
}

#[test]
fn condition_clone_renders_the_same() {
    let expr = paren(op("#x").any(vec![op(":a"), op(":b")])).and(not(attribute_exists(op("#y"))));
    let copy = expr.clone();
    assert_eq!(copy, expr);
    assert_eq!(copy.to_string(), "(#x IN (:a, :b)) AND NOT attribute_exists (#y)");
}
