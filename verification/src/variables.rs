//! Named values, as a text that is expanded may refer to them.

use vstd::prelude::*;
use crate::text::same_text;

verus! {

/// The names and values that a list of pairs of strings holds.
pub open spec fn pairs(list: Seq<(String, String)>) -> Seq<(Seq<char>, Seq<char>)> {
    list.map_values(|pair: (String, String)| (pair.0@, pair.1@))
}

/// The value of the variable `name`: that of the first pair of `vars` with
/// this name, or the empty text if there is none.
pub open spec fn value_of(vars: Seq<(Seq<char>, Seq<char>)>, name: Seq<char>) -> Seq<char>
    decreases vars.len(),
{
    if vars.len() == 0 {
        Seq::empty()
    } else if vars[0].0 == name {
        vars[0].1
    } else {
        value_of(vars.skip(1), name)
    }
}

/// The value of the variable `name`: that of the first pair of `vars` with
/// this name, or the empty text if there is none.
pub fn variable_or_empty(vars: &Vec<(String, String)>, name: &str) -> (out: String)
    ensures
        out@ == value_of(pairs(vars@), name@),
{
    let mut i: usize = 0;
    assert(pairs(vars@).skip(0) =~= pairs(vars@));
    while i < vars.len()
        invariant
            i <= vars.len(),
            value_of(pairs(vars@), name@) == value_of(pairs(vars@).skip(i as int), name@),
        decreases vars.len() - i,
    {
        let ghost rest = pairs(vars@).skip(i as int);
        assert(rest[0] == (vars@[i as int].0@, vars@[i as int].1@));
        if same_text(vars[i].0.as_str(), name) {
            return vars[i].1.clone();
        }
        assert(rest.skip(1) =~= pairs(vars@).skip(i + 1));
        i += 1;
    }
    String::new()
}

} // verus!
