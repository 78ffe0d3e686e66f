//! Which files of the rules directory hold rule scripts. Scripts run in the
//! order in which the directory lists them.
use vstd::prelude::*;

verus! {

/// A file name with the extension `lua`: it ends in `.lua` and has something
/// before that dot.
pub open spec fn is_rule_name(name: Seq<char>) -> bool {
    name.len() > 4 && name.subrange(name.len() - 4, name.len() as int) == seq!['.', 'l', 'u', 'a']
}

/// Whether a directory entry with this file name is a rule script.
pub fn is_rule_file(name: &str) -> (r: bool)
    ensures
        r == is_rule_name(name@),
{
    let n = name.unicode_len();
    if n <= 4 {
        return false;
    }
    let a = name.get_char(n - 4);
    let b = name.get_char(n - 3);
    let c = name.get_char(n - 2);
    let d = name.get_char(n - 1);
    let r = a == '.' && b == 'l' && c == 'u' && d == 'a';
    proof {
        let tail = name@.subrange(n - 4, n as int);
        if r {
            assert(tail =~= seq!['.', 'l', 'u', 'a']);
        } else {
            assert(tail[0] == a && tail[1] == b && tail[2] == c && tail[3] == d);
        }
    }
    r
}

} // verus!
