//! Removing a package, behind a confirmation typed by the user.
use vstd::prelude::*;
use crate::command::{Invocation, is_privileged_pacman, removal};

verus! {

/// An answer without the line terminator (`"\n"` or `"\r\n"`) that ends it,
/// if any.
pub open spec fn without_line_end(answer: Seq<char>) -> Seq<char> {
    let n = answer.len() as int;
    if n >= 2 && answer[n - 2] == '\r' && answer[n - 1] == '\n' {
        answer.subrange(0, n - 2)
    } else if n >= 1 && answer[n - 1] == '\n' {
        answer.subrange(0, n - 1)
    } else {
        answer
    }
}

/// An answer that confirms: exactly `y` or `Y`, followed by at most one line
/// terminator.
pub open spec fn is_confirmation(answer: Seq<char>) -> bool {
    without_line_end(answer) == seq!['y'] || without_line_end(answer) == seq!['Y']
}

/// Whether the line the user typed confirms the removal.
pub fn confirms(answer: &str) -> (r: bool)
    ensures
        r == is_confirmation(answer@),
{
    let n = answer.unicode_len();
    let end: usize = if n >= 2 && answer.get_char(n - 2) == '\r' && answer.get_char(n - 1) == '\n' {
        n - 2
    } else if n >= 1 && answer.get_char(n - 1) == '\n' {
        n - 1
    } else {
        n
    };
    let ghost body = answer@.subrange(0, end as int);
    assert(without_line_end(answer@) == body);
    if end == 1 {
        let c = answer.get_char(0);
        assert(body[0] == c && seq!['y'][0] == 'y' && seq!['Y'][0] == 'Y');
        assert(body == seq!['y'] <==> c == 'y') by {
            if c == 'y' {
                assert(body =~= seq!['y']);
            }
        }
        assert(body == seq!['Y'] <==> c == 'Y') by {
            if c == 'Y' {
                assert(body =~= seq!['Y']);
            }
        }
        c == 'y' || c == 'Y'
    } else {
        assert(body.len() != 1);
        false
    }
}

/// The removal that an answer leads to: none unless the answer confirms,
/// else `sudo pacman -Rns|-Rs <name> --noconfirm` as [`removal`] builds it.
pub fn removal_plan(name: &str, purge: bool, answer: &str) -> (r: Option<Invocation>)
    ensures
        r is None <==> !is_confirmation(answer@),
        r matches Some(inv) ==> is_privileged_pacman(
            inv,
            seq![if purge { "-Rns"@ } else { "-Rs"@ }, name@, "--noconfirm"@],
        ),
{
    if confirms(answer) {
        Some(removal(name, purge))
    } else {
        None
    }
}

} // verus!
