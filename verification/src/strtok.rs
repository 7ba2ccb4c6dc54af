//! Tokenising a string in place: each call returns the stretch before the
//! first occurrence of the delimiter and leaves the rest (the delimiter
//! consumed) behind the reference, so that repeated calls walk the string.
//! When the delimiter no longer occurs, the whole rest is returned and the
//! empty string is left.

use vstd::prelude::*;
use vstd::string::StrSliceExecFns;

use crate::strsplit::{has_match, is_first_match, Delimiter};

verus! {

pub fn strtok<'a, 'b>(s: &'a mut &'b str, delimiter: char) -> (r: &'b str)
    ensures
        if has_match(delimiter, (*old(s))@) {
            exists|i: int|
                {
                    &&& #[trigger] is_first_match(delimiter, (*old(s))@, i)
                    &&& r@ == (*old(s))@.subrange(0, i)
                    &&& (*final(s))@ == (*old(s))@.subrange(i + 1, (*old(s))@.len() as int)
                }
        } else {
            r@ == (*old(s))@ && (*final(s))@ == Seq::<char>::empty()
        },
{
    let cur: &'b str = *s;
    match delimiter.find_next(cur) {
        Some((start, end)) => {
            proof {
                assert(is_first_match(delimiter, cur@, start as int));
                assert(has_match(delimiter, cur@));
            }
            let prefix = cur.substring_char(0, start);
            let suffix = cur.substring_char(end, cur.unicode_len());
            *s = suffix;
            prefix
        },
        None => {
            let prefix = cur;
            *s = "";
            proof {
                reveal_strlit("");
                assert(("")@ =~= Seq::<char>::empty());
            }
            prefix
        },
    }
}

} // verus!
