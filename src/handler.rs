//! Decisions on how a run ends: the exit code of a failed subcommand and the
//! report of arguments that nothing consumed.
use crate::detection::texts;
use crate::text::joined;
use vstd::prelude::*;

verus! {

/// The exit code to leave with after a subcommand: none where it succeeded,
/// else its own code, or 1 where it had none (it was killed by a signal).
pub fn exit_code(success: bool, code: Option<i32>) -> (r: Option<i32>)
    ensures
        success ==> r is None,
        !success ==> r == Some(
            match code {
                Some(c) => c,
                None => 1i32,
            },
        ),
{
    if success {
        None
    } else {
        match code {
            Some(c) => Some(c),
            None => Some(1),
        }
    }
}

/// Each word preceded by a space.
pub open spec fn spaced(ws: Seq<Seq<char>>) -> Seq<char>
    decreases ws.len(),
{
    if ws.len() == 0 {
        Seq::empty()
    } else {
        spaced(ws.drop_last()) + " "@ + ws.last()
    }
}

/// The arguments nothing consumed, each preceded by a space; `None` where
/// there are none.
pub fn unused_arguments(unused: &Vec<String>) -> (r: Option<String>)
    ensures
        unused@.len() == 0 ==> r is None,
        unused@.len() > 0 ==> (r matches Some(m) && m@ == spaced(texts(unused@))),
{
    let n = unused.len();
    if n == 0 {
        return None;
    }
    let mut message = String::new();
    let mut i: usize = 0;
    while i < n
        invariant
            n == unused@.len(),
            i <= n,
            message@ == spaced(texts(unused@).subrange(0, i as int)),
        decreases n - i,
    {
        let ghost part = texts(unused@).subrange(0, i + 1);
        assert(part.drop_last() =~= texts(unused@).subrange(0, i as int));
        let spaced_word = joined(" ", unused[i].as_str());
        message = joined(message.as_str(), spaced_word.as_str());
        assert(message@ =~= spaced(part));
        i = i + 1;
    }
    assert(texts(unused@).subrange(0, n as int) =~= texts(unused@));
    Some(message)
}

} // verus!
