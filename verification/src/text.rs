//! Joining token sequences with single spaces, and the lemmas the
//! incremental builders need.

use vstd::prelude::*;
use vstd::string::StringExecFns;

use crate::data::strings_view;

verus! {

/// Every token, each preceded by one space.
pub open spec fn space_prefixed(tokens: Seq<Seq<char>>) -> Seq<char>
    decreases tokens.len(),
{
    if tokens.len() == 0 {
        Seq::empty()
    } else {
        " "@ + tokens[0] + space_prefixed(tokens.drop_first())
    }
}

/// The tokens joined with exactly one space between neighbours, and no
/// leading or trailing space.
pub open spec fn join_space(tokens: Seq<Seq<char>>) -> Seq<char> {
    if tokens.len() == 0 {
        Seq::empty()
    } else {
        tokens[0] + space_prefixed(tokens.drop_first())
    }
}

pub proof fn lemma_space_prefixed_push(tokens: Seq<Seq<char>>, token: Seq<char>)
    ensures
        space_prefixed(tokens.push(token)) == space_prefixed(tokens) + " "@ + token,
    decreases tokens.len(),
{
    if tokens.len() == 0 {
        assert(tokens.push(token).drop_first() =~= Seq::<Seq<char>>::empty());
        assert(tokens.push(token)[0] == token);
        assert(space_prefixed(Seq::<Seq<char>>::empty()) == Seq::<char>::empty());
        assert(space_prefixed(tokens.push(token)) =~= space_prefixed(tokens) + " "@ + token);
    } else {
        assert(tokens.push(token).drop_first() =~= tokens.drop_first().push(token));
        lemma_space_prefixed_push(tokens.drop_first(), token);
        assert(space_prefixed(tokens.push(token)) =~= space_prefixed(tokens) + " "@ + token);
    }
}

pub proof fn lemma_join_space_push(tokens: Seq<Seq<char>>, token: Seq<char>)
    ensures
        join_space(tokens.push(token)) == if tokens.len() == 0 {
            token
        } else {
            join_space(tokens) + " "@ + token
        },
{
    if tokens.len() == 0 {
        assert(tokens.push(token).drop_first() =~= Seq::<Seq<char>>::empty());
        assert(join_space(tokens.push(token)) =~= token);
    } else {
        assert(tokens.push(token).drop_first() =~= tokens.drop_first().push(token));
        lemma_space_prefixed_push(tokens.drop_first(), token);
        assert(join_space(tokens.push(token)) =~= join_space(tokens) + " "@ + token);
    }
}

/// Appends the tokens to `out`, joined with single spaces.
pub fn append_joined(out: &mut String, tokens: &Vec<String>)
    ensures
        final(out)@ == old(out)@ + join_space(strings_view(tokens@)),
{
    let ghost token_views = strings_view(tokens@);
    let mut i: usize = 0;
    while i < tokens.len()
        invariant
            i <= tokens.len(),
            token_views == strings_view(tokens@),
            out@ == old(out)@ + join_space(token_views.take(i as int)),
        decreases tokens.len() - i,
    {
        if i != 0 {
            out.append(" ");
        }
        out.append(tokens[i].as_str());
        proof {
            assert(token_views.take(i + 1) =~= token_views.take(i as int).push(token_views[i as int]));
            lemma_join_space_push(token_views.take(i as int), token_views[i as int]);
            assert(token_views[i as int] == tokens@[i as int]@);
            if i == 0 {
                assert(join_space(token_views.take(0)) =~= Seq::<char>::empty());
                assert(out@ =~= old(out)@ + join_space(token_views.take(i + 1)));
            } else {
                assert(out@ =~= old(out)@ + join_space(token_views.take(i + 1)));
            }
        }
        i += 1;
    }
    proof {
        assert(token_views.take(tokens@.len() as int) =~= token_views);
        if tokens@.len() == 0 {
            assert(out@ =~= old(out)@ + join_space(token_views));
        }
    }
}

/// Appends every token to `out`, each preceded by one space.
pub fn append_space_prefixed(out: &mut String, tokens: &Vec<String>)
    ensures
        final(out)@ == old(out)@ + space_prefixed(strings_view(tokens@)),
{
    let ghost token_views = strings_view(tokens@);
    let mut i: usize = 0;
    while i < tokens.len()
        invariant
            i <= tokens.len(),
            token_views == strings_view(tokens@),
            out@ == old(out)@ + space_prefixed(token_views.take(i as int)),
        decreases tokens.len() - i,
    {
        out.append(" ");
        out.append(tokens[i].as_str());
        proof {
            assert(token_views.take(i + 1) =~= token_views.take(i as int).push(token_views[i as int]));
            lemma_space_prefixed_push(token_views.take(i as int), token_views[i as int]);
            assert(token_views[i as int] == tokens@[i as int]@);
            assert(out@ =~= old(out)@ + space_prefixed(token_views.take(i + 1)));
        }
        i += 1;
    }
    proof {
        assert(token_views.take(tokens@.len() as int) =~= token_views);
        if tokens@.len() == 0 {
            assert(out@ =~= old(out)@ + space_prefixed(token_views));
        }
    }
}

} // verus!
