use vstd::prelude::*;
use vstd::string::StrSliceExecFns;

verus! {

/// The token that repeats the previous resolved prompt.
pub open spec fn repeat_token() -> Seq<char> {
    seq!['.']
}

/// Carry-forward resolution of the token list, given the previous resolved
/// prompt (empty before the first token). A repeat token stands for the
/// previous prompt; a resolved prompt that is empty — a leading repeat
/// token, or an empty token — makes the whole list invalid.
pub open spec fn resolve_from(toks: Seq<Seq<char>>, prev: Seq<char>) -> Option<Seq<Seq<char>>>
    decreases toks.len(),
{
    if toks.len() == 0 {
        Some(Seq::empty())
    } else {
        let cur = if toks[0] == repeat_token() {
            prev
        } else {
            toks[0]
        };
        if cur.len() == 0 {
            None
        } else {
            match resolve_from(toks.drop_first(), cur) {
                None => None,
                Some(rest) => Some(seq![cur] + rest),
            }
        }
    }
}

/// The resolved form of a raw prompt token list.
pub open spec fn resolve_spec(toks: Seq<Seq<char>>) -> Option<Seq<Seq<char>>> {
    resolve_from(toks, Seq::empty())
}

/// A token list that resolves at all resolves to exactly one prompt per
/// token, and no resolved prompt is the empty string: each resolved prompt
/// can carry exactly one task.
pub proof fn lemma_resolve_shape(toks: Seq<Seq<char>>, prev: Seq<char>)
    requires
        resolve_from(toks, prev) is Some,
    ensures
        resolve_from(toks, prev)->Some_0.len() == toks.len(),
        forall|i: int|
            0 <= i < toks.len() ==> #[trigger] resolve_from(toks, prev)->Some_0[i].len() > 0,
    decreases toks.len(),
{
    if toks.len() > 0 {
        let cur = if toks[0] == repeat_token() {
            prev
        } else {
            toks[0]
        };
        lemma_resolve_shape(toks.drop_first(), cur);
    }
}

fn is_repeat_token(t: &String) -> (r: bool)
    ensures
        r == (t@ == repeat_token()),
{
    let r = t.as_str().unicode_len() == 1 && t.as_str().get_char(0) == '.';
    proof {
        if r {
            assert(t@ =~= repeat_token());
        }
    }
    r
}

/// Resolve the raw prompt tokens into concrete prompts: each "." repeats
/// the previous resolved prompt. The list is rejected — `None` — when the
/// first token is "." (there is no previous prompt yet) or when any
/// resolved prompt is the empty string.
pub fn resolve_prompts(tokens: &Vec<String>) -> (r: Option<Vec<String>>)
    ensures
        (r matches Some(v) ==> resolve_spec(tokens.deep_view()) == Some(v.deep_view())),
        r is None ==> resolve_spec(tokens.deep_view()) is None,
{
    let ghost tv = tokens.deep_view();
    let mut out: Vec<String> = Vec::new();
    let mut prev: String = String::new();
    let n = tokens.len();
    let mut i: usize = 0;
    proof {
        assert(tv.skip(0) =~= tv);
        assert(out.deep_view() =~= Seq::<Seq<char>>::empty());
        match resolve_from(tv, prev@) {
            Some(rest) => {
                assert(out.deep_view() + rest =~= rest);
            },
            None => {},
        }
    }
    while i < n
        invariant
            i <= n,
            n == tokens@.len(),
            tv == tokens.deep_view(),
            resolve_spec(tv) == (match resolve_from(tv.skip(i as int), prev@) {
                None => None::<Seq<Seq<char>>>,
                Some(rest) => Some(out.deep_view() + rest),
            }),
        decreases n - i,
    {
        let ghost rem = tv.skip(i as int);
        proof {
            assert(rem[0] == tv[i as int]);
            assert(tv[i as int] == tokens@[i as int].deep_view());
            assert(rem.drop_first() =~= tv.skip(i + 1 as int));
        }
        let cur: String = if is_repeat_token(&tokens[i]) {
            prev.clone()
        } else {
            tokens[i].clone()
        };
        if cur.as_str().unicode_len() == 0 {
            return None;
        }
        let ghost out_before = out.deep_view();
        out.push(cur.clone());
        prev = cur;
        proof {
            assert(out.deep_view() =~= out_before.push(prev@));
            match resolve_from(tv.skip(i + 1 as int), prev@) {
                Some(rest) => {
                    assert(out_before + (seq![prev@] + rest) =~= out.deep_view() + rest);
                },
                None => {},
            }
        }
        i = i + 1;
    }
    proof {
        assert(tv.skip(n as int) =~= Seq::<Seq<char>>::empty());
        assert(out.deep_view() + Seq::<Seq<char>>::empty() =~= out.deep_view());
    }
    Some(out)
}

} // verus!
