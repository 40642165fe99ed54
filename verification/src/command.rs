//! Building the argument list of one call of the helper, token by token.

use vstd::prelude::*;
use vstd::string::*;
use crate::json::texts_view;

verus! {

/// The tokens that an optional value contributes: itself when it is there,
/// and nothing at all, not even an empty token, when it is not.
pub open spec fn optional_token(token: Option<Seq<char>>) -> Seq<Seq<char>> {
    match token {
        Some(t) => seq![t],
        None => Seq::empty(),
    }
}

/// A command followed by a list of paths, which come last and in their own
/// order.
pub open spec fn with_paths(head: Seq<Seq<char>>, paths: Seq<Seq<char>>) -> Seq<Seq<char>> {
    head + paths
}

/// Paths that follow a command keep their number and their order: the path
/// at place `i` of the list stands at place `i` after the command.
pub proof fn lemma_paths_keep_order(head: Seq<Seq<char>>, paths: Seq<Seq<char>>)
    ensures
        with_paths(head, paths).len() == head.len() + paths.len(),
        forall|i: int| 0 <= i < head.len() ==> #[trigger] with_paths(head, paths)[i] == head[i],
        forall|i: int|
            0 <= i < paths.len() ==> #[trigger] with_paths(head, paths)[head.len() + i]
                == paths[i],
{
}

/// Appends one token to an argument list.
pub fn push_token(args: &mut Vec<String>, token: &str)
    ensures
        texts_view(final(args)@) == texts_view(old(args)@).push(token@),
{
    args.push(String::from_str(token));
    assert(texts_view(args@) =~= texts_view(old(args)@).push(token@));
}

/// Appends every token of `more`, in order, to an argument list.
pub fn push_tokens(args: &mut Vec<String>, more: &[String])
    ensures
        texts_view(final(args)@) == texts_view(old(args)@) + texts_view(more@),
{
    let mut i: usize = 0;
    assert(texts_view(more@).take(0) =~= Seq::empty());
    assert(texts_view(args@) =~= texts_view(old(args)@) + texts_view(more@).take(0));
    while i < more.len()
        invariant
            i <= more.len(),
            texts_view(args@) == texts_view(old(args)@) + texts_view(more@).take(i as int),
        decreases more.len() - i,
    {
        let ghost before = texts_view(args@);
        push_token(args, more[i].as_str());
        assert(texts_view(more@).take(i + 1) =~= texts_view(more@).take(i as int).push(
            more@[i as int]@,
        ));
        assert(texts_view(args@) =~= texts_view(old(args)@) + texts_view(more@).take(i + 1));
        i += 1;
    }
    assert(texts_view(more@).take(i as int) =~= texts_view(more@));
}

} // verus!
