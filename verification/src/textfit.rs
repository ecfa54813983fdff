//! Fitting a left-justified and a right-justified string into one
//! terminal row of a fixed width.

use vstd::prelude::*;

use crate::utils::{spaces, spec_spaces};

verus! {

/// One terminal row of exactly `width` cells.  When both strings and a
/// separating space fit, the left string is left-justified and the right
/// string right-justified.  When only the left string fits, it is padded
/// with spaces and the right string is dropped.  Otherwise the left
/// string is truncated and suffixed with an ellipsis (or cut hard when
/// the row is narrower than the ellipsis itself).
pub open spec fn spec_fit_row(left: Seq<char>, right: Seq<char>, width: nat) -> Seq<char> {
    if left.len() + 1 + right.len() <= width {
        left + spec_spaces((width - left.len() - right.len()) as nat) + right
    } else if left.len() <= width {
        left + spec_spaces((width - left.len()) as nat)
    } else if width >= 3 {
        left.take(width - 3) + seq!['.', '.', '.']
    } else {
        left.take(width as int)
    }
}

/// A fitted row always fills the width exactly.
pub proof fn lemma_fit_row_len(left: Seq<char>, right: Seq<char>, width: nat)
    ensures
        spec_fit_row(left, right, width).len() == width,
{
}

pub fn fit_row(left: &str, right: &str, width: usize) -> (s: String)
    ensures
        s@ == spec_fit_row(left@, right@, width as nat),
{
    let llen = left.unicode_len();
    let rlen = right.unicode_len();
    if llen < width && width - llen > rlen {
        let mut s = left.to_owned();
        s.append(spaces(width - llen - rlen).as_str());
        s.append(right);
        s
    } else if llen <= width {
        let mut s = left.to_owned();
        s.append(spaces(width - llen).as_str());
        s
    } else if width >= 3 {
        let mut s = left.substring_char(0, width - 3).to_owned();
        s.append("...");
        proof {
            reveal_strlit("...");
            assert(s@ =~= spec_fit_row(left@, right@, width as nat));
        }
        s
    } else {
        let s = left.substring_char(0, width).to_owned();
        proof {
            assert(s@ =~= spec_fit_row(left@, right@, width as nat));
        }
        s
    }
}

} // verus!
