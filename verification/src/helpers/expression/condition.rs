//! Condition expressions: a small typed tree and the text that it renders to.

use vstd::prelude::*;
use vstd::string::*;
use crate::helpers::expression::operand::IntoOperand;
use crate::helpers::expression::operand::Operand;
use crate::text::concat3;
use crate::text::concat5;
use crate::text::join;
use crate::text::lemma_join_push;

verus! {

/// The comparison operators of a condition expression.
#[derive(Debug, Clone, Copy, PartialEq)]
pub enum Comperator {
    Eq,
    Ne,
    Lt,
    Lte,
    Gt,
    Gte,
}

impl Comperator {
    /// The operator as the store's grammar writes it.
    pub open spec fn symbol(self) -> Seq<char> {
        match self {
            Comperator::Eq => "="@,
            Comperator::Ne => "<>"@,
            Comperator::Lt => "<"@,
            Comperator::Lte => "<="@,
            Comperator::Gt => ">"@,
            Comperator::Gte => ">="@,
        }
    }

    /// Renders the operator.
    pub fn to_string(&self) -> (result: String)
        ensures
            result@ == self.symbol(),
    {
        match self {
            Comperator::Eq => String::from_str("="),
            Comperator::Ne => String::from_str("<>"),
            Comperator::Lt => String::from_str("<"),
            Comperator::Lte => String::from_str("<="),
            Comperator::Gt => String::from_str(">"),
            Comperator::Gte => String::from_str(">="),
        }
    }
}

/// The built-in predicates of the store.
#[derive(Debug, PartialEq)]
#[allow(inconsistent_fields)]
pub enum ConditionalFunction {
    AttributeExists(Operand),
    AttributeNotExists(Operand),
    AttributeType { path: Operand, ty: Operand },
    BeginsWith { path: Operand, substr: Operand },
    Contains { path: Operand, operand: Operand },
}

/// The text of a call of a built-in function with one argument.
pub open spec fn call1(name: Seq<char>, arg: Seq<char>) -> Seq<char> {
    name + " ("@ + arg + ")"@
}

/// The text of a call of a built-in function with two arguments.
pub open spec fn call2(name: Seq<char>, first: Seq<char>, second: Seq<char>) -> Seq<char> {
    name + " ("@ + first + ", "@ + second + ")"@
}

/// Renders a call of a built-in function with one argument.
pub fn render_call1(name: &str, arg: &Operand) -> (result: String)
    ensures
        result@ == call1(name@, arg@),
{
    let arg_text = arg.to_string();
    let mut result = concat3(name, " (", arg_text.as_str());
    result.append(")");
    result
}

/// Renders a call of a built-in function with two arguments.
pub fn render_call2(name: &str, first: &Operand, second: &Operand) -> (result: String)
    ensures
        result@ == call2(name@, first@, second@),
{
    let first_text = first.to_string();
    let second_text = second.to_string();
    let mut result = concat5(name, " (", first_text.as_str(), ", ", second_text.as_str());
    result.append(")");
    result
}

impl Clone for ConditionalFunction {
    fn clone(&self) -> (result: Self)
        ensures
            result == *self,
    {
        match self {
            ConditionalFunction::AttributeExists(operand) => ConditionalFunction::AttributeExists(
                operand.clone(),
            ),
            ConditionalFunction::AttributeNotExists(operand) => {
                ConditionalFunction::AttributeNotExists(operand.clone())
            },
            ConditionalFunction::AttributeType { path, ty } => ConditionalFunction::AttributeType {
                path: path.clone(),
                ty: ty.clone(),
            },
            ConditionalFunction::BeginsWith { path, substr } => ConditionalFunction::BeginsWith {
                path: path.clone(),
                substr: substr.clone(),
            },
            ConditionalFunction::Contains { path, operand } => ConditionalFunction::Contains {
                path: path.clone(),
                operand: operand.clone(),
            },
        }
    }
}

impl ConditionalFunction {
    /// The text of the predicate: its name, a space, and the arguments in
    /// parentheses, separated by a comma and a space.
    pub open spec fn text(self) -> Seq<char> {
        match self {
            ConditionalFunction::AttributeExists(operand) => call1("attribute_exists"@, operand@),
            ConditionalFunction::AttributeNotExists(operand) => call1(
                "attribute_not_exists"@,
                operand@,
            ),
            ConditionalFunction::AttributeType { path, ty } => call2(
                "attribute_type"@,
                path@,
                ty@,
            ),
            ConditionalFunction::BeginsWith { path, substr } => call2(
                "begins_with"@,
                path@,
                substr@,
            ),
            ConditionalFunction::Contains { path, operand } => call2(
                "contains"@,
                path@,
                operand@,
            ),
        }
    }

    /// Renders the predicate.
    pub fn to_string(&self) -> (result: String)
        ensures
            result@ == self.text(),
    {
        match self {
            ConditionalFunction::AttributeExists(operand) => render_call1(
                "attribute_exists",
                operand,
            ),
            ConditionalFunction::AttributeNotExists(operand) => render_call1(
                "attribute_not_exists",
                operand,
            ),
            ConditionalFunction::AttributeType { path, ty } => render_call2(
                "attribute_type",
                path,
                ty,
            ),
            ConditionalFunction::BeginsWith { path, substr } => render_call2(
                "begins_with",
                path,
                substr,
            ),
            ConditionalFunction::Contains { path, operand } => render_call2(
                "contains",
                path,
                operand,
            ),
        }
    }
}

/// A condition expression.
#[derive(Debug, PartialEq)]
#[allow(inconsistent_fields)]
pub enum ConditionExpression {
    /// A comparison (`=`, `<>`, `<`, `<=`, `>`, `>=`).
    Compare { left: Operand, right: Operand, comperator: Comperator },
    /// `between A and B`.
    Between { operand: Operand, from: Operand, to: Operand },
    /// `in any of the values`.
    Any { operand: Operand, values: Vec<Operand> },
    /// A built-in predicate.
    Function(ConditionalFunction),
    /// Logical `AND`.
    And { left: Box<ConditionExpression>, right: Box<ConditionExpression> },
    /// Logical `OR`.
    Or { left: Box<ConditionExpression>, right: Box<ConditionExpression> },
    /// Negation.
    Not(Box<ConditionExpression>),
    /// An expression wrapped in parentheses.
    Parentheses(Box<ConditionExpression>),
}

/// The text of a comparison: the operands around the operator, with one space
/// on each side of it.
pub open spec fn compare_text(left: Seq<char>, comperator: Comperator, right: Seq<char>) -> Seq<
    char,
> {
    left + " "@ + comperator.symbol() + " "@ + right
}

/// The text of a `BETWEEN` condition.
pub open spec fn between_text(operand: Seq<char>, from: Seq<char>, to: Seq<char>) -> Seq<char> {
    operand + " BETWEEN "@ + from + " AND "@ + to
}

/// The texts of the operands of `values`.
pub open spec fn operand_views(values: Seq<Operand>) -> Seq<Seq<char>> {
    values.map_values(|v: Operand| v@)
}

/// Renders the operands of `values`, separated by a comma and a space.
pub fn render_operand_list(values: &Vec<Operand>) -> (result: String)
    ensures
        result@ == join(operand_views(values@), ", "@),
{
    let mut result = String::new();
    let mut i: usize = 0;
    while i < values.len()
        invariant
            i <= values.len(),
            result@ == join(operand_views(values@.take(i as int)), ", "@),
        decreases values.len() - i,
    {
        proof {
            let done = operand_views(values@.take(i as int));
            lemma_join_push(done, ", "@, values@[i as int]@);
            assert(operand_views(values@.take(i as int + 1)) =~= done.push(values@[i as int]@));
        }
        if i > 0 {
            result.append(", ");
        }
        let item = values[i].to_string();
        result.append(item.as_str());
        i = i + 1;
    }
    proof {
        assert(values@.take(values.len() as int) =~= values@);
    }
    result
}

impl Clone for ConditionExpression {
    /// A copy of the tree: it renders to the same text.
    fn clone(&self) -> (result: Self)
        ensures
            result.text() == self.text(),
        decreases self,
    {
        match self {
            ConditionExpression::Compare { left, right, comperator } => {
                ConditionExpression::Compare {
                    left: left.clone(),
                    right: right.clone(),
                    comperator: *comperator,
                }
            },
            ConditionExpression::Between { operand, from, to } => ConditionExpression::Between {
                operand: operand.clone(),
                from: from.clone(),
                to: to.clone(),
            },
            ConditionExpression::Any { operand, values } => {
                let copies = values.clone();
                proof {
                    assert(operand_views(copies@) =~= operand_views(values@));
                }
                ConditionExpression::Any { operand: operand.clone(), values: copies }
            },
            ConditionExpression::Function(function) => ConditionExpression::Function(
                function.clone(),
            ),
            ConditionExpression::And { left, right } => {
                let l = (**left).clone();
                let r = (**right).clone();
                ConditionExpression::And { left: Box::new(l), right: Box::new(r) }
            },
            ConditionExpression::Or { left, right } => {
                let l = (**left).clone();
                let r = (**right).clone();
                ConditionExpression::Or { left: Box::new(l), right: Box::new(r) }
            },
            ConditionExpression::Not(expr) => {
                let e = (**expr).clone();
                ConditionExpression::Not(Box::new(e))
            },
            ConditionExpression::Parentheses(expr) => {
                let e = (**expr).clone();
                ConditionExpression::Parentheses(Box::new(e))
            },
        }
    }
}

impl ConditionExpression {
    /// The text of the expression: one line, with no parentheses but those of
    /// `Parentheses` nodes, of function calls and of `IN` lists.
    pub open spec fn text(self) -> Seq<char>
        decreases self,
    {
        match self {
            ConditionExpression::Compare { left, right, comperator } => compare_text(
                left@,
                comperator,
                right@,
            ),
            ConditionExpression::Between { operand, from, to } => between_text(
                operand@,
                from@,
                to@,
            ),
            ConditionExpression::Any { operand, values } => operand@ + " IN ("@ + join(
                operand_views(values@),
                ", "@,
            ) + ")"@,
            ConditionExpression::Function(function) => function.text(),
            ConditionExpression::And { left, right } => left.text() + " AND "@ + right.text(),
            ConditionExpression::Or { left, right } => left.text() + " OR "@ + right.text(),
            ConditionExpression::Not(expr) => "NOT "@ + expr.text(),
            ConditionExpression::Parentheses(expr) => "("@ + expr.text() + ")"@,
        }
    }

    /// Renders the expression.
    pub fn to_string(&self) -> (result: String)
        ensures
            result@ == self.text(),
        decreases self,
    {
        match self {
            ConditionExpression::Compare { left, right, comperator } => {
                let l = left.to_string();
                let c = comperator.to_string();
                let r = right.to_string();
                concat5(l.as_str(), " ", c.as_str(), " ", r.as_str())
            },
            ConditionExpression::Between { operand, from, to } => {
                let o = operand.to_string();
                let f = from.to_string();
                let t = to.to_string();
                concat5(o.as_str(), " BETWEEN ", f.as_str(), " AND ", t.as_str())
            },
            ConditionExpression::Any { operand, values } => {
                let o = operand.to_string();
                let list = render_operand_list(values);
                let mut result = concat3(o.as_str(), " IN (", list.as_str());
                result.append(")");
                result
            },
            ConditionExpression::Function(function) => function.to_string(),
            ConditionExpression::And { left, right } => {
                let l = left.to_string();
                let r = right.to_string();
                concat3(l.as_str(), " AND ", r.as_str())
            },
            ConditionExpression::Or { left, right } => {
                let l = left.to_string();
                let r = right.to_string();
                concat3(l.as_str(), " OR ", r.as_str())
            },
            ConditionExpression::Not(expr) => {
                let e = expr.to_string();
                let mut result = String::from_str("NOT ");
                result.append(e.as_str());
                result
            },
            ConditionExpression::Parentheses(expr) => {
                let e = expr.to_string();
                concat3("(", e.as_str(), ")")
            },
        }
    }

    /// Connects two expressions with `AND`, adding no parentheses.
    pub fn and(self, expr: ConditionExpression) -> (result: Self)
        ensures
            result == (ConditionExpression::And { left: Box::new(self), right: Box::new(expr) }),
            result.text() == self.text() + " AND "@ + expr.text(),
    {
        ConditionExpression::And { left: Box::new(self), right: Box::new(expr) }
    }

    /// Connects two expressions with `OR`, adding no parentheses.
    pub fn or(self, expr: ConditionExpression) -> (result: Self)
        ensures
            result == (ConditionExpression::Or { left: Box::new(self), right: Box::new(expr) }),
            result.text() == self.text() + " OR "@ + expr.text(),
    {
        ConditionExpression::Or { left: Box::new(self), right: Box::new(expr) }
    }
}

/// The condition builders of an operand.
pub trait Condition: IntoOperand {
    /// Creates an `equal to` condition.
    fn equal(self, operand: Operand) -> (result: ConditionExpression)
        ensures
            result == (ConditionExpression::Compare {
                left: self.operand(),
                right: operand,
                comperator: Comperator::Eq,
            }),
    {
        ConditionExpression::Compare {
            left: self.into_operand(),
            right: operand,
            comperator: Comperator::Eq,
        }
    }

    /// Creates a `not equal to` condition.
    fn ne(self, operand: Operand) -> (result: ConditionExpression)
        ensures
            result == (ConditionExpression::Compare {
                left: self.operand(),
                right: operand,
                comperator: Comperator::Ne,
            }),
    {
        ConditionExpression::Compare {
            left: self.into_operand(),
            right: operand,
            comperator: Comperator::Ne,
        }
    }

    /// Creates a `less than` condition.
    fn lt(self, operand: Operand) -> (result: ConditionExpression)
        ensures
            result == (ConditionExpression::Compare {
                left: self.operand(),
                right: operand,
                comperator: Comperator::Lt,
            }),
    {
        ConditionExpression::Compare {
            left: self.into_operand(),
            right: operand,
            comperator: Comperator::Lt,
        }
    }

    /// Creates a `less than or equal to` condition.
    fn lte(self, operand: Operand) -> (result: ConditionExpression)
        ensures
            result == (ConditionExpression::Compare {
                left: self.operand(),
                right: operand,
                comperator: Comperator::Lte,
            }),
    {
        ConditionExpression::Compare {
            left: self.into_operand(),
            right: operand,
            comperator: Comperator::Lte,
        }
    }

    /// Creates a `greater than` condition.
    fn gt(self, operand: Operand) -> (result: ConditionExpression)
        ensures
            result == (ConditionExpression::Compare {
                left: self.operand(),
                right: operand,
                comperator: Comperator::Gt,
            }),
    {
        ConditionExpression::Compare {
            left: self.into_operand(),
            right: operand,
            comperator: Comperator::Gt,
        }
    }

    /// Creates a `greater than or equal to` condition.
    fn gte(self, operand: Operand) -> (result: ConditionExpression)
        ensures
            result == (ConditionExpression::Compare {
                left: self.operand(),
                right: operand,
                comperator: Comperator::Gte,
            }),
    {
        ConditionExpression::Compare {
            left: self.into_operand(),
            right: operand,
            comperator: Comperator::Gte,
        }
    }

    /// Creates a `between A and B` condition.
    fn between(self, from: Operand, to: Operand) -> (result: ConditionExpression)
        ensures
            result == (ConditionExpression::Between { operand: self.operand(), from, to }),
    {
        ConditionExpression::Between { operand: self.into_operand(), from, to }
    }

    /// Creates an `in any of the values` condition. An empty list is taken as
    /// it is and renders as `IN ()`.
    fn any(self, values: Vec<Operand>) -> (result: ConditionExpression)
        ensures
            result == (ConditionExpression::Any { operand: self.operand(), values }),
    {
        ConditionExpression::Any { operand: self.into_operand(), values }
    }
}

impl Condition for Operand {

}

/// Creates the negation of an expression.
pub fn not(condition_expression: ConditionExpression) -> (result: ConditionExpression)
    ensures
        result == ConditionExpression::Not(Box::new(condition_expression)),
        result.text() == "NOT "@ + condition_expression.text(),
{
    ConditionExpression::Not(Box::new(condition_expression))
}

/// Wraps the expression in parentheses.
pub fn paren(condition_expression: ConditionExpression) -> (result: ConditionExpression)
    ensures
        result == ConditionExpression::Parentheses(Box::new(condition_expression)),
        result.text() == "("@ + condition_expression.text() + ")"@,
{
    ConditionExpression::Parentheses(Box::new(condition_expression))
}

/// Built-in function `attribute_exists`.
pub fn attribute_exists(operand: Operand) -> (result: ConditionExpression)
    ensures
        result == ConditionExpression::Function(ConditionalFunction::AttributeExists(operand)),
        result.text() == call1("attribute_exists"@, operand@),
{
    ConditionExpression::Function(ConditionalFunction::AttributeExists(operand))
}

/// Built-in function `attribute_not_exists`.
pub fn attribute_not_exists(operand: Operand) -> (result: ConditionExpression)
    ensures
        result == ConditionExpression::Function(ConditionalFunction::AttributeNotExists(operand)),
        result.text() == call1("attribute_not_exists"@, operand@),
{
    ConditionExpression::Function(ConditionalFunction::AttributeNotExists(operand))
}

/// Built-in function `attribute_type`.
pub fn attribute_type(path: Operand, ty: Operand) -> (result: ConditionExpression)
    ensures
        result == ConditionExpression::Function(ConditionalFunction::AttributeType { path, ty }),
        result.text() == call2("attribute_type"@, path@, ty@),
{
    ConditionExpression::Function(ConditionalFunction::AttributeType { path, ty })
}

/// Built-in function `begins_with`.
pub fn begins_with(path: Operand, substr: Operand) -> (result: ConditionExpression)
    ensures
        result == ConditionExpression::Function(ConditionalFunction::BeginsWith { path, substr }),
        result.text() == call2("begins_with"@, path@, substr@),
{
    ConditionExpression::Function(ConditionalFunction::BeginsWith { path, substr })
}

/// Built-in function `contains`.
pub fn contains(path: Operand, operand: Operand) -> (result: ConditionExpression)
    ensures
        result == ConditionExpression::Function(ConditionalFunction::Contains { path, operand }),
        result.text() == call2("contains"@, path@, operand@),
{
    ConditionExpression::Function(ConditionalFunction::Contains { path, operand })
}

/// Built-in function `size`: the operand `size (<operand>)`, which can stand
/// wherever an operand is accepted.
pub fn size(operand: Operand) -> (result: Operand)
    ensures
        result@ == call1("size"@, operand@),
{
    Operand::from_string(render_call1("size", &operand))
}

impl vstd::std_specs::convert::FromSpecImpl<ConditionExpression> for String {
    /// The conversion is specified by its text, which `from` states itself.
    open spec fn obeys_from_spec() -> bool {
        false
    }

    open spec fn from_spec(v: ConditionExpression) -> String {
        arbitrary()
    }
}

impl From<ConditionExpression> for String {
    fn from(condition: ConditionExpression) -> (result: String)
        ensures
            result@ == condition.text(),
    {
        condition.to_string()
    }
}

} // verus!
