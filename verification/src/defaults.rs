//! The built-in truthy and falsey token sets, used whenever a context's
//! slot was never customized.

use vstd::prelude::*;
use vstd::string::StringExecFns;

verus! {

/// The built-in truthy tokens: `true`, `t`, `1`, `yes`.
pub open spec fn default_truthy() -> Seq<Seq<char>> {
    seq!["true"@, "t"@, "1"@, "yes"@]
}

/// The built-in falsey tokens: `false`, `f`, `0`, `no`.
pub open spec fn default_falsey() -> Seq<Seq<char>> {
    seq!["false"@, "f"@, "0"@, "no"@]
}

/// The built-in truthy tokens, as strings.
pub fn truthy_values() -> (values: Vec<String>)
    ensures
        values.deep_view() == default_truthy(),
{
    let mut values: Vec<String> = Vec::new();
    values.push(String::from_str("true"));
    values.push(String::from_str("t"));
    values.push(String::from_str("1"));
    values.push(String::from_str("yes"));
    proof {
        assert(values.deep_view() =~= default_truthy());
    }
    values
}

/// The built-in falsey tokens, as strings.
pub fn falsey_values() -> (values: Vec<String>)
    ensures
        values.deep_view() == default_falsey(),
{
    let mut values: Vec<String> = Vec::new();
    values.push(String::from_str("false"));
    values.push(String::from_str("f"));
    values.push(String::from_str("0"));
    values.push(String::from_str("no"));
    proof {
        assert(values.deep_view() =~= default_falsey());
    }
    values
}

/// No token is both a built-in truthy and a built-in falsey token.
pub proof fn lemma_defaults_disjoint(token: Seq<char>)
    ensures
        !(default_truthy().contains(token) && default_falsey().contains(token)),
{
    reveal_strlit("true");
    reveal_strlit("t");
    reveal_strlit("1");
    reveal_strlit("yes");
    reveal_strlit("false");
    reveal_strlit("f");
    reveal_strlit("0");
    reveal_strlit("no");
    assert("true"@.len() == 4);
    assert("t"@.len() == 1);
    assert("1"@.len() == 1);
    assert("yes"@.len() == 3);
    assert("false"@.len() == 5);
    assert("f"@.len() == 1);
    assert("0"@.len() == 1);
    assert("no"@.len() == 2);
    assert("t"@[0] == 't' && "1"@[0] == '1' && "f"@[0] == 'f' && "0"@[0] == '0');
}

} // verus!
