use vstd::prelude::*;
use vstd::string::*;
use crate::text::join;
use crate::text::lemma_join_push;

verus! {

/// An operand of which the expressions consist: an alias, a document path or
/// the text of an already rendered sub-expression, kept verbatim.
#[derive(Debug, PartialEq)]
pub struct Operand(String);

impl View for Operand {
    type V = Seq<char>;

    closed spec fn view(&self) -> Seq<char> {
        self.0@
    }
}

impl Clone for Operand {
    fn clone(&self) -> (result: Self)
        ensures
            result == *self,
    {
        Operand(self.0.clone())
    }
}

/// What can stand where an operand is expected.
pub trait IntoOperand: Sized {
    /// The operand that the value stands for.
    spec fn operand(self) -> Operand;

    /// Turns the value into its operand.
    fn into_operand(self) -> (result: Operand)
        ensures
            result == self.operand(),
    ;
}

impl IntoOperand for Operand {
    open spec fn operand(self) -> Operand {
        self
    }

    fn into_operand(self) -> (result: Operand) {
        self
    }
}

impl Operand {
    /// Wraps `value` verbatim.
    pub fn new(value: &str) -> (result: Self)
        ensures
            result@ == value@,
    {
        Operand(String::from_str(value))
    }

    /// Wraps an owned string verbatim.
    pub fn from_string(value: String) -> (result: Self)
        ensures
            result@ == value@,
    {
        Operand(value)
    }

    /// The text of the operand.
    pub fn to_string(&self) -> (result: String)
        ensures
            result@ == self@,
    {
        self.0.clone()
    }
}

/// The views of the string slices of `parts`.
pub open spec fn slice_views(parts: Seq<&str>) -> Seq<Seq<char>> {
    parts.map_values(|s: &str| s@)
}

/// The operand that holds `value` verbatim.
pub fn op(value: &str) -> (result: Operand)
    ensures
        result@ == value@,
{
    Operand::new(value)
}

/// The operand for a nested document path: the segments joined with `.`.
pub fn op_path(segments: &[&str]) -> (result: Operand)
    ensures
        result@ == join(slice_views(segments@), "."@),
{
    let mut text = String::new();
    let mut i: usize = 0;
    while i < segments.len()
        invariant
            i <= segments.len(),
            text@ == join(slice_views(segments@.take(i as int)), "."@),
        decreases segments.len() - i,
    {
        proof {
            let done = slice_views(segments@.take(i as int));
            lemma_join_push(done, "."@, segments@[i as int]@);
            assert(slice_views(segments@.take(i as int + 1)) =~= done.push(segments@[i as int]@));
        }
        if i > 0 {
            text.append(".");
        }
        text.append(segments[i]);
        i = i + 1;
    }
    proof {
        assert(segments@.take(segments.len() as int) =~= segments@);
    }
    Operand(text)
}

} // verus!
