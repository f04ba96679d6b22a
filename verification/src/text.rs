//! Building blocks for rendering expression text.

use vstd::prelude::*;
use vstd::string::*;

verus! {

/// The parts of `parts`, in order, with `sep` between each two neighbours.
pub open spec fn join(parts: Seq<Seq<char>>, sep: Seq<char>) -> Seq<char>
    decreases parts.len(),
{
    if parts.len() == 0 {
        Seq::empty()
    } else if parts.len() == 1 {
        parts[0]
    } else {
        join(parts.drop_last(), sep) + sep + parts.last()
    }
}

/// The views of the strings of `parts`.
pub open spec fn views(parts: Seq<String>) -> Seq<Seq<char>> {
    parts.map_values(|s: String| s@)
}

/// Joining one more part onto a non-empty list appends the separator and the part.
pub proof fn lemma_join_push(parts: Seq<Seq<char>>, sep: Seq<char>, part: Seq<char>)
    ensures
        join(parts.push(part), sep) == if parts.len() == 0 {
            part
        } else {
            join(parts, sep) + sep + part
        },
{
    let pushed = parts.push(part);
    assert(pushed.drop_last() =~= parts);
    assert(pushed.last() == part);
    if parts.len() == 0 {
        assert(pushed[0] == part);
    }
}

/// Joins the strings of `parts` with `sep` between each two neighbours.
pub fn join_strings(parts: &Vec<String>, sep: &str) -> (result: String)
    ensures
        result@ == join(views(parts@), sep@),
{
    let mut result = String::new();
    let mut i: usize = 0;
    while i < parts.len()
        invariant
            i <= parts.len(),
            result@ == join(views(parts@.take(i as int)), sep@),
        decreases parts.len() - i,
    {
        proof {
            let done = views(parts@.take(i as int));
            lemma_join_push(done, sep@, parts@[i as int]@);
            assert(views(parts@.take(i as int + 1)) =~= done.push(parts@[i as int]@));
        }
        if i > 0 {
            result.append(sep);
        }
        result.append(parts[i].as_str());
        i = i + 1;
    }
    proof {
        assert(parts@.take(parts.len() as int) =~= parts@);
    }
    result
}

/// The concatenation of three pieces of text.
pub fn concat3(a: &str, b: &str, c: &str) -> (result: String)
    ensures
        result@ == a@ + b@ + c@,
{
    let mut result = String::from_str(a);
    result.append(b);
    result.append(c);
    result
}

/// The concatenation of five pieces of text.
pub fn concat5(a: &str, b: &str, c: &str, d: &str, e: &str) -> (result: String)
    ensures
        result@ == a@ + b@ + c@ + d@ + e@,
{
    let mut result = String::from_str(a);
    result.append(b);
    result.append(c);
    result.append(d);
    result.append(e);
    result
}

} // verus!
