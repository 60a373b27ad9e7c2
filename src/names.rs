//! Names derived from an npm package name.
use vstd::prelude::*;

use crate::text::{
    lemma_split_on_nonempty, replace_char, replace_char_exec, split_char, split_on,
    strip_leading, strip_leading_exec,
};

verus! {

/// The crate name for package `name`: no leading `@`, each `/` written `-`.
pub fn package_name_to_crate_name(name: &str) -> (r: String)
    ensures
        r@ == replace_char(strip_leading(name@, '@'), '/', '-'),
{
    proof {
        reveal_strlit("-");
    }
    replace_char_exec(strip_leading_exec(name, '@'), '/', "-")
}

/// The binary name for package `name`: what follows its last `/`.
pub fn package_name_to_binary_name(name: &str) -> (r: String)
    ensures
        r@ == split_on(name@, '/').last(),
{
    let parts = split_char(name, '/');
    proof {
        lemma_split_on_nonempty(name@, '/');
    }
    let last = parts.len() - 1;
    assert(parts@[last as int]@ == split_on(name@, '/')[last as int]);
    parts[last].clone()
}

} // verus!
