//! Condition expressions kept as text: every builder returns the rendered
//! expression, ready to be combined further.

use vstd::prelude::*;
use vstd::string::*;
use crate::text::concat3;
use crate::text::concat5;
use crate::text::join;
use crate::text::lemma_join_push;

verus! {

/// An operand of which the condition expressions consist, kept verbatim.
#[derive(Debug, PartialEq)]
pub struct Operand(String);

impl View for Operand {
    type V = Seq<char>;

    closed spec fn view(&self) -> Seq<char> {
        self.0@
    }
}

impl Clone for Operand {
    fn clone(&self) -> (result: Self)
        ensures
            result == *self,
    {
        Operand(self.0.clone())
    }
}

/// A condition expression, as its text.
#[derive(Debug, PartialEq)]
pub struct Expression(String);

impl View for Expression {
    type V = Seq<char>;

    closed spec fn view(&self) -> Seq<char> {
        self.0@
    }
}

impl Clone for Expression {
    fn clone(&self) -> (result: Self)
        ensures
            result == *self,
    {
        Expression(self.0.clone())
    }
}

/// The text of a comparison: the two operands around the operator, with one
/// space on each side of it.
pub open spec fn comparison(left: Seq<char>, operator: Seq<char>, right: Seq<char>) -> Seq<char> {
    left + " "@ + operator + " "@ + right
}

/// The text of a call of a built-in function with one argument.
pub open spec fn call1(name: Seq<char>, arg: Seq<char>) -> Seq<char> {
    name + " ("@ + arg + ")"@
}

/// The text of a call of a built-in function with two arguments.
pub open spec fn call2(name: Seq<char>, first: Seq<char>, second: Seq<char>) -> Seq<char> {
    name + " ("@ + first + ", "@ + second + ")"@
}

/// The texts of the operands of `values`.
pub open spec fn operand_views(values: Seq<Operand>) -> Seq<Seq<char>> {
    values.map_values(|v: Operand| v@)
}

impl Operand {
    /// Wraps `value` verbatim.
    pub fn new(value: &str) -> (result: Self)
        ensures
            result@ == value@,
    {
        Operand(String::from_str(value))
    }

    /// The text of the operand.
    pub fn to_string(&self) -> (result: String)
        ensures
            result@ == self@,
    {
        self.0.clone()
    }

    /// Creates an `equal` expression.
    pub fn eq(self, operand: Operand) -> (result: Expression)
        ensures
            result@ == comparison(self@, "="@, operand@),
    {
        self.compare("=", operand)
    }

    /// Creates a `not equal` expression.
    pub fn ne(self, operand: Operand) -> (result: Expression)
        ensures
            result@ == comparison(self@, "<>"@, operand@),
    {
        self.compare("<>", operand)
    }

    /// Creates a `less than` expression.
    pub fn lt(self, operand: Operand) -> (result: Expression)
        ensures
            result@ == comparison(self@, "<"@, operand@),
    {
        self.compare("<", operand)
    }

    /// Creates a `less than or equal` expression.
    pub fn lte(self, operand: Operand) -> (result: Expression)
        ensures
            result@ == comparison(self@, "<="@, operand@),
    {
        self.compare("<=", operand)
    }

    /// Creates a `greater than` expression.
    pub fn gt(self, operand: Operand) -> (result: Expression)
        ensures
            result@ == comparison(self@, ">"@, operand@),
    {
        self.compare(">", operand)
    }

    /// Creates a `greater than or equal` expression.
    pub fn gte(self, operand: Operand) -> (result: Expression)
        ensures
            result@ == comparison(self@, ">="@, operand@),
    {
        self.compare(">=", operand)
    }

    /// Creates a `between A and B` expression.
    pub fn between(self, from: Operand, to: Operand) -> (result: Expression)
        ensures
            result@ == self@ + " BETWEEN "@ + from@ + " AND "@ + to@,
    {
        Expression(
            concat5(self.0.as_str(), " BETWEEN ", from.0.as_str(), " AND ", to.0.as_str()),
        )
    }

    /// Creates an `in any of the values` expression. An empty list is taken as
    /// it is and renders as `IN ()`.
    pub fn any(self, operands: Vec<Operand>) -> (result: Expression)
        ensures
            result@ == self@ + " IN ("@ + join(operand_views(operands@), ", "@) + ")"@,
    {
        let mut list = String::new();
        let mut i: usize = 0;
        while i < operands.len()
            invariant
                i <= operands.len(),
                list@ == join(operand_views(operands@.take(i as int)), ", "@),
            decreases operands.len() - i,
        {
            proof {
                let done = operand_views(operands@.take(i as int));
                lemma_join_push(done, ", "@, operands@[i as int]@);
                assert(operand_views(operands@.take(i as int + 1)) =~= done.push(
                    operands@[i as int]@,
                ));
            }
            if i > 0 {
                list.append(", ");
            }
            list.append(operands[i].0.as_str());
            i = i + 1;
        }
        proof {
            assert(operands@.take(operands.len() as int) =~= operands@);
        }
        let mut text = concat3(self.0.as_str(), " IN (", list.as_str());
        text.append(")");
        Expression(text)
    }

    fn compare(self, operator: &str, operand: Operand) -> (result: Expression)
        ensures
            result@ == comparison(self@, operator@, operand@),
    {
        Expression(concat5(self.0.as_str(), " ", operator, " ", operand.0.as_str()))
    }
}

impl Expression {
    /// The text of the expression.
    pub fn to_string(&self) -> (result: String)
        ensures
            result@ == self@,
    {
        self.0.clone()
    }

    /// Logical `AND` operator.
    pub fn and(self, expr: Expression) -> (result: Expression)
        ensures
            result@ == comparison(self@, "AND"@, expr@),
    {
        self.connect("AND", expr)
    }

    /// Logical `OR` operator.
    pub fn or(self, expr: Expression) -> (result: Expression)
        ensures
            result@ == comparison(self@, "OR"@, expr@),
    {
        self.connect("OR", expr)
    }

    fn connect(self, operator: &str, expr: Expression) -> (result: Expression)
        ensures
            result@ == comparison(self@, operator@, expr@),
    {
        Expression(concat5(self.0.as_str(), " ", operator, " ", expr.0.as_str()))
    }
}

impl vstd::std_specs::convert::FromSpecImpl<Expression> for String {
    /// The conversion is specified by its text, which `from` states itself.
    open spec fn obeys_from_spec() -> bool {
        false
    }

    open spec fn from_spec(v: Expression) -> String {
        arbitrary()
    }
}

impl From<Expression> for String {
    fn from(expr: Expression) -> (result: String)
        ensures
            result@ == expr@,
    {
        expr.0
    }
}

/// Wraps the expression in parentheses.
pub fn wrap(expr: Expression) -> (result: Expression)
    ensures
        result@ == "("@ + expr@ + ")"@,
{
    Expression(concat3("(", expr.0.as_str(), ")"))
}

/// Creates the negation of an expression.
pub fn not(expr: Expression) -> (result: Expression)
    ensures
        result@ == "NOT "@ + expr@,
{
    let mut text = String::from_str("NOT ");
    text.append(expr.0.as_str());
    Expression(text)
}

fn render_call1(name: &str, arg: &Operand) -> (result: String)
    ensures
        result@ == call1(name@, arg@),
{
    let mut result = concat3(name, " (", arg.0.as_str());
    result.append(")");
    result
}

fn render_call2(name: &str, first: &Operand, second: &Operand) -> (result: String)
    ensures
        result@ == call2(name@, first@, second@),
{
    let mut result = concat5(name, " (", first.0.as_str(), ", ", second.0.as_str());
    result.append(")");
    result
}

/// Built-in function `attribute_exists`.
pub fn attribute_exists(operand: Operand) -> (result: Expression)
    ensures
        result@ == call1("attribute_exists"@, operand@),
{
    Expression(render_call1("attribute_exists", &operand))
}

/// Built-in function `attribute_not_exists`.
pub fn attribute_not_exists(operand: Operand) -> (result: Expression)
    ensures
        result@ == call1("attribute_not_exists"@, operand@),
{
    Expression(render_call1("attribute_not_exists", &operand))
}

/// Built-in function `attribute_type`.
pub fn attribute_type(operand: Operand, ty: Operand) -> (result: Expression)
    ensures
        result@ == call2("attribute_type"@, operand@, ty@),
{
    Expression(render_call2("attribute_type", &operand, &ty))
}

/// Built-in function `begins_with`.
pub fn begins_with(operand: Operand, substr: Operand) -> (result: Expression)
    ensures
        result@ == call2("begins_with"@, operand@, substr@),
{
    Expression(render_call2("begins_with", &operand, &substr))
}

/// Built-in function `contains`.
pub fn contains(path: Operand, operand: Operand) -> (result: Expression)
    ensures
        result@ == call2("contains"@, path@, operand@),
{
    Expression(render_call2("contains", &path, &operand))
}

/// Built-in function `size`: the operand `size (<operand>)`.
pub fn size(operand: Operand) -> (result: Operand)
    ensures
        result@ == call1("size"@, operand@),
{
    Operand(render_call1("size", &operand))
}

} // verus!
