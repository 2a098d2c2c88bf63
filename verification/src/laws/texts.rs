//! Laws on texts and on names that Discord accepts.

use crate::names::{
    is_accepted_name, is_compliant_context_menu_name, is_compliant_name, is_regex, lowercase,
    regex_match,
};
use crate::structs::options::is_compliant_text;
use crate::text::{ascii_folded, same_text};
use vstd::prelude::*;

verus! {

proof fn lemma_folded(x: char, y: char)
    requires
        ascii_folded(x) == ascii_folded(y),
    ensures
        x == y || ('A' <= x && x <= 'Z' && y as int == x as int + 32) || ('A' <= y && y <= 'Z'
            && x as int == y as int + 32),
{
    assert(x as u32 as int == x as int);
    assert(y as u32 as int == y as int);
}

/// With regard to case, only equal texts are the same. Without, two texts are the same if they are
/// as long as each other and each two letters are equal or are an upper case ASCII letter and the
/// lower case letter for it.
pub proof fn law_same_text(a: Seq<char>, b: Seq<char>)
    ensures
        same_text(a, b, false) <==> a == b,
        same_text(a, b, true) <==> a.len() == b.len() && forall|i: int|
            0 <= i < a.len() ==> {
                ||| #[trigger] a[i] == b[i]
                ||| 'A' <= a[i] && a[i] <= 'Z' && b[i] as int == a[i] as int + 32
                ||| 'A' <= b[i] && b[i] <= 'Z' && a[i] as int == b[i] as int + 32
            },
{
    if same_text(a, b, true) {
        assert forall|i: int| 0 <= i < a.len() implies {
            ||| #[trigger] a[i] == b[i]
            ||| 'A' <= a[i] && a[i] <= 'Z' && b[i] as int == a[i] as int + 32
            ||| 'A' <= b[i] && b[i] <= 'Z' && a[i] as int == b[i] as int + 32
        } by {
            lemma_folded(a[i], b[i]);
        }
    }
}

/// A text of 1 to 100 characters is fine, any other is not.
pub proof fn law_compliant_text(s: Seq<char>)
    ensures
        is_compliant_text(s) <==> 1 <= s.len() && s.len() <= 100,
{
}

/// Names of slash commands and of options have to match the pattern that Discord gives for them and
/// be in lower case. Names of context menu commands can hold spaces too, and their case is free.
pub proof fn law_accepted_names(name: Seq<char>)
    ensures
        ({
            let pattern = r"^[-_\p{L}\p{N}\p{sc=Deva}\p{sc=Thai}]{1,32}$"@;
            let menu = r"^[-_ \p{L}\p{N}\p{sc=Deva}\p{sc=Thai}]{1,32}$"@;
            let matched = is_regex(pattern) && regex_match(pattern, name);
            &&& is_accepted_name(name, false) <==> matched && lowercase(name) == name
            &&& is_accepted_name(name, true) <==> is_regex(menu) && regex_match(menu, name)
            &&& is_compliant_context_menu_name(name) <==> is_regex(menu) && regex_match(menu, name)
            &&& is_compliant_name(name, true) <==> matched
            &&& is_compliant_name(name, false) <==> matched && lowercase(name) == name
        }),
{
}

} // verus!
