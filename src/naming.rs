//! The name of a function, recovered from the type path of an item declared
//! inside it (`crate::module::function::f`), for log messages.
use vstd::prelude::*;
use vstd::string::*;

verus! {

/// The index of the last `':'` in `s`, or -1 when there is none.
pub open spec fn last_colon(s: Seq<char>) -> int
    decreases s.len(),
{
    if s.len() == 0 {
        -1
    } else if s.last() == ':' {
        s.len() - 1
    } else {
        last_colon(s.drop_last())
    }
}

/// The path without its last three characters (the `::f` of the inner item),
/// then what follows its last `':'`.
pub open spec fn enclosing_function(path: Seq<char>) -> Seq<char>
    recommends
        path.len() >= 3,
{
    let body = path.subrange(0, path.len() - 3);
    body.subrange(last_colon(body) + 1, body.len() as int)
}

proof fn lemma_last_colon_bounds(s: Seq<char>)
    ensures
        -1 <= last_colon(s) < s.len(),
    decreases s.len(),
{
    if s.len() > 0 && s.last() != ':' {
        lemma_last_colon_bounds(s.drop_last());
    }
}

/// Returns the name of the function that encloses the item whose type path is
/// given.
pub fn function_name(type_path: &str) -> (r: &str)
    requires
        type_path@.len() >= 3,
    ensures
        r@ == enclosing_function(type_path@),
{
    let end = type_path.unicode_len() - 3;
    let ghost body = type_path@.subrange(0, end as int);
    let mut i: usize = end;
    proof {
        assert(body.subrange(0, i as int) =~= body);
    }
    while i > 0 && type_path.get_char(i - 1) != ':'
        invariant
            i <= end,
            end == type_path@.len() - 3,
            body == type_path@.subrange(0, end as int),
            last_colon(body) == last_colon(body.subrange(0, i as int)),
        decreases i,
    {
        proof {
            let s = body.subrange(0, i as int);
            assert(s.drop_last() =~= body.subrange(0, i - 1));
        }
        i = i - 1;
    }
    proof {
        let s = body.subrange(0, i as int);
        if i > 0 {
            assert(s.last() == ':');
        } else {
            assert(s.len() == 0);
        }
        lemma_last_colon_bounds(body);
    }
    type_path.substring_char(i, end)
}

} // verus!
