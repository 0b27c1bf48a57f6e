//! Literal placeholder substitution: every occurrence of `{{name}}` in a
//! template is replaced by the mapped value; placeholders without a mapping
//! are left untouched. No conditionals, loops or nesting.

use vstd::prelude::*;

use crate::text::{chars_to_string, str_to_chars, trimmed};

verus! {

/// `s` with every occurrence of `pat` replaced by `to`, scanning left to
/// right without overlap. An empty pattern replaces nothing.
pub open spec fn replace_all_spec(s: Seq<char>, pat: Seq<char>, to: Seq<char>) -> Seq<char>
    decreases s.len(),
{
    if pat.len() == 0 || s.len() < pat.len() {
        s
    } else if s.subrange(0, pat.len() as int) == pat {
        to + replace_all_spec(s.skip(pat.len() as int), pat, to)
    } else {
        seq![s[0]] + replace_all_spec(s.skip(1), pat, to)
    }
}

/// Whether `pat` occurs in `s` starting at position `i`.
fn matches_at(s: &Vec<char>, i: usize, pat: &Vec<char>) -> (r: bool)
    requires
        i + pat.len() <= s.len(),
    ensures
        r == (s@.subrange(i as int, i + pat.len()) == pat@),
{
    let m = pat.len();
    let mut j: usize = 0;
    while j < m
        invariant
            0 <= j <= m == pat.len(),
            i + m <= s.len(),
            forall|k: int| 0 <= k < j ==> s@[i + k] == pat@[k],
        decreases m - j,
    {
        if s[i + j] != pat[j] {
            proof {
                let sub = s@.subrange(i as int, i + pat.len());
                assert(sub[j as int] == s@[i + j]);
            }
            return false;
        }
        j = j + 1;
    }
    proof {
        assert(s@.subrange(i as int, i + pat.len()) =~= pat@);
    }
    true
}

/// `s` with every occurrence of `pat` replaced by `to`.
pub fn replace_chars(s: &Vec<char>, pat: &Vec<char>, to: &Vec<char>) -> (r: Vec<char>)
    requires
        pat.len() >= 1,
    ensures
        r@ == replace_all_spec(s@, pat@, to@),
{
    let mut out: Vec<char> = Vec::new();
    let mut i: usize = 0;
    proof {
        assert(s@.skip(0) =~= s@);
    }
    while i < s.len()
        invariant
            0 <= i <= s.len(),
            pat.len() >= 1,
            replace_all_spec(s@, pat@, to@) == out@ + replace_all_spec(
                s@.skip(i as int),
                pat@,
                to@,
            ),
        decreases s.len() - i,
    {
        let ghost tail = s@.skip(i as int);
        let remaining = s.len() - i;
        if remaining >= pat.len() && matches_at(s, i, pat) {
            proof {
                assert(tail.subrange(0, pat.len() as int) =~= s@.subrange(
                    i as int,
                    i + pat.len(),
                ));
                assert(replace_all_spec(tail, pat@, to@) == to@ + replace_all_spec(
                    tail.skip(pat.len() as int),
                    pat@,
                    to@,
                ));
                assert(tail.skip(pat.len() as int) =~= s@.skip(i + pat.len()));
            }
            let ghost before = out@;
            let mut j: usize = 0;
            while j < to.len()
                invariant
                    0 <= j <= to.len(),
                    out@ =~= before + to@.subrange(0, j as int),
                decreases to.len() - j,
            {
                out.push(to[j]);
                j = j + 1;
            }
            proof {
                assert(out@ =~= before + to@);
                assert(before + (to@ + replace_all_spec(s@.skip(i + pat.len()), pat@, to@))
                    =~= (before + to@) + replace_all_spec(s@.skip(i + pat.len()), pat@, to@));
            }
            i = i + pat.len();
        } else {
            proof {
                if tail.len() >= pat.len() {
                    assert(tail.subrange(0, pat.len() as int) =~= s@.subrange(
                        i as int,
                        i + pat.len(),
                    ));
                    assert(replace_all_spec(tail, pat@, to@) == seq![tail[0]] + replace_all_spec(
                        tail.skip(1),
                        pat@,
                        to@,
                    ));
                } else {
                    assert(replace_all_spec(tail, pat@, to@) == tail);
                    assert(replace_all_spec(tail.skip(1), pat@, to@) == tail.skip(1));
                    assert(tail =~= seq![tail[0]] + tail.skip(1));
                }
                assert(tail[0] == s@[i as int]);
                assert(tail.skip(1) =~= s@.skip(i + 1));
                assert(out@ + (seq![s@[i as int]] + replace_all_spec(s@.skip(i + 1), pat@, to@))
                    =~= out@.push(s@[i as int]) + replace_all_spec(s@.skip(i + 1), pat@, to@));
            }
            out.push(s[i]);
            i = i + 1;
        }
    }
    proof {
        assert(s@.skip(i as int).len() == 0);
        assert(replace_all_spec(s@.skip(i as int), pat@, to@) == s@.skip(i as int));
        assert(out@ =~= out@ + s@.skip(i as int));
    }
    out
}

/// The double-brace marker for a placeholder name.
pub open spec fn placeholder(key: Seq<char>) -> Seq<char> {
    seq!['{', '{'] + key + seq!['}', '}']
}

/// The document after substituting the pairs in order: each step replaces
/// every occurrence of `{{key}}` with the mapped value.
pub open spec fn render_spec(content: Seq<char>, pairs: Seq<(Seq<char>, Seq<char>)>) -> Seq<char>
    decreases pairs.len(),
{
    if pairs.len() == 0 {
        content
    } else {
        render_spec(
            replace_all_spec(content, placeholder(pairs[0].0), pairs[0].1),
            pairs.drop_first(),
        )
    }
}

/// The views of a list of key/value strings.
pub open spec fn pair_views(values: Seq<(String, String)>) -> Seq<(Seq<char>, Seq<char>)> {
    values.map(|i: int, p: (String, String)| (p.0@, p.1@))
}

/// The template that a render starts from: the user template when it is
/// present and not blank, the computed default otherwise.
pub open spec fn chosen_template(template: Option<&str>, fallback: Seq<char>) -> Seq<char> {
    match template {
        Some(t) => if trimmed(t@).len() > 0 {
            t@
        } else {
            fallback
        },
        None => fallback,
    }
}

/// Substitutes every `{{key}}` marker of the mapping into the chosen
/// template; markers without a mapping stay verbatim.
pub fn render_template(template: Option<&str>, fallback: &str, values: &Vec<(String, String)>) -> (r:
    String)
    ensures
        r@ == render_spec(chosen_template(template, fallback@), pair_views(values@)),
{
    let start: &str = match template {
        Some(t) => {
            if !crate::text::is_blank(t) {
                t
            } else {
                fallback
            }
        }
        None => fallback,
    };
    let mut content = str_to_chars(start);
    let ghost c0 = content@;
    let mut i: usize = 0;
    proof {
        assert(pair_views(values@).skip(0) =~= pair_views(values@));
    }
    while i < values.len()
        invariant
            0 <= i <= values.len(),
            render_spec(c0, pair_views(values@)) == render_spec(
                content@,
                pair_views(values@).skip(i as int),
            ),
        decreases values.len() - i,
    {
        let ghost pairs_left = pair_views(values@).skip(i as int);
        let mut pat: Vec<char> = Vec::new();
        pat.push('{');
        pat.push('{');
        let key_chars = str_to_chars(values[i].0.as_str());
        let mut k: usize = 0;
        while k < key_chars.len()
            invariant
                0 <= k <= key_chars.len(),
                pat@ =~= seq!['{', '{'] + key_chars@.subrange(0, k as int),
            decreases key_chars.len() - k,
        {
            pat.push(key_chars[k]);
            k = k + 1;
        }
        pat.push('}');
        pat.push('}');
        proof {
            assert(pat@ =~= placeholder(values@[i as int].0@));
        }
        let val_chars = str_to_chars(values[i].1.as_str());
        let next = replace_chars(&content, &pat, &val_chars);
        proof {
            assert(pairs_left[0] == pair_views(values@)[i as int]);
            assert(render_spec(content@, pairs_left) == render_spec(
                replace_all_spec(content@, placeholder(values@[i as int].0@), values@[i as int].1@),
                pairs_left.drop_first(),
            ));
            assert(pairs_left.drop_first() =~= pair_views(values@).skip(i + 1));
        }
        content = next;
        i = i + 1;
    }
    proof {
        assert(pair_views(values@).skip(i as int).len() == 0);
        assert(render_spec(content@, pair_views(values@).skip(i as int)) == content@);
    }
    chars_to_string(&content)
}

} // verus!
