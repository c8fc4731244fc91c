//! Derivation of the output file name: the input's base name without its
//! directory and without its last extension, then `_framed.` and the
//! extension of the configured format.

use vstd::prelude::*;

use crate::config::{spec_ext, Config, OutputFormat};

verus! {

/// The part of a path after its last `/`; empty for a path that ends in
/// `/`.
pub open spec fn spec_base(s: Seq<char>) -> Seq<char>
    decreases s.len(),
{
    if s.len() == 0 {
        s
    } else if s.last() == '/' {
        Seq::empty()
    } else {
        spec_base(s.drop_last()).push(s.last())
    }
}

/// Whether a name holds a dot.
pub open spec fn has_dot(s: Seq<char>) -> bool
    decreases s.len(),
{
    s.len() > 0 && (s.last() == '.' || has_dot(s.drop_last()))
}

/// A name without its last extension: everything before the last `.`, or
/// the whole name if it has no dot.
pub open spec fn spec_stem(s: Seq<char>) -> Seq<char>
    decreases s.len(),
{
    if !has_dot(s) {
        s
    } else if s.last() == '.' {
        s.drop_last()
    } else {
        spec_stem(s.drop_last())
    }
}

/// The name of the output file for a given input path and format.
pub open spec fn spec_output_name(path: Seq<char>, format: OutputFormat) -> Seq<char> {
    spec_stem(spec_base(path)) + "_framed."@ + spec_ext(format)
}

/// The base name is the suffix that follows the last separator.
proof fn lemma_base_subrange(s: Seq<char>, start: int)
    requires
        0 <= start <= s.len(),
        forall|j: int| start <= j < s.len() ==> s[j] != '/',
        start > 0 ==> s[start - 1] == '/',
    ensures
        spec_base(s) == s.subrange(start, s.len() as int),
    decreases s.len(),
{
    if s.len() == 0 {
        assert(spec_base(s) =~= s.subrange(start, s.len() as int));
    } else if s.last() == '/' {
        assert(start == s.len());
        assert(spec_base(s) =~= s.subrange(start, s.len() as int));
    } else {
        assert(start < s.len());
        lemma_base_subrange(s.drop_last(), start);
        assert(spec_base(s) =~= s.subrange(start, s.len() as int));
    }
}

/// A dot anywhere in the name makes `has_dot` true.
proof fn lemma_has_dot_at(t: Seq<char>, i: int)
    requires
        0 <= i < t.len(),
        t[i] == '.',
    ensures
        has_dot(t),
    decreases t.len(),
{
    if i < t.len() - 1 {
        lemma_has_dot_at(t.drop_last(), i);
    }
}

/// A name free of dots has none.
proof fn lemma_no_dot(t: Seq<char>)
    requires
        forall|j: int| 0 <= j < t.len() ==> t[j] != '.',
    ensures
        !has_dot(t),
    decreases t.len(),
{
    if t.len() > 0 {
        lemma_no_dot(t.drop_last());
    }
}

/// The stem is the prefix that precedes the last dot, or the whole name.
proof fn lemma_stem_subrange(t: Seq<char>, k: int)
    requires
        0 <= k <= t.len(),
        k < t.len() ==> t[k] == '.',
        forall|j: int| k < j < t.len() ==> t[j] != '.',
        k == t.len() ==> forall|j: int| 0 <= j < t.len() ==> t[j] != '.',
    ensures
        spec_stem(t) == t.subrange(0, k),
    decreases t.len(),
{
    if k == t.len() {
        lemma_no_dot(t);
        assert(spec_stem(t) =~= t.subrange(0, k));
    } else if k == t.len() - 1 {
        lemma_has_dot_at(t, k);
        assert(spec_stem(t) =~= t.subrange(0, k));
    } else {
        lemma_has_dot_at(t, k);
        assert(t.last() != '.');
        lemma_stem_subrange(t.drop_last(), k);
        assert(t.drop_last().subrange(0, k) =~= t.subrange(0, k));
    }
}

/// Build `<stem>_framed.<ext>` from the input path.
pub fn output_name(path: &str, format: OutputFormat) -> (r: String)
    ensures
        r@ == spec_output_name(path@, format),
{
    let n = path.unicode_len();
    let mut start: usize = n;
    while start > 0 && path.get_char(start - 1) != '/'
        invariant
            n == path@.len(),
            start <= n,
            forall|j: int| start <= j < n ==> path@[j] != '/',
        decreases start,
    {
        start -= 1;
    }
    let mut dot: usize = n;
    let mut j: usize = n;
    while j > start && dot == n
        invariant
            n == path@.len(),
            start <= j <= n,
            dot == n || (start <= dot < n && path@[dot as int] == '.' && forall|q: int|
                dot < q < n ==> path@[q] != '.'),
            dot == n ==> forall|q: int| j <= q < n ==> path@[q] != '.',
        decreases j,
    {
        if path.get_char(j - 1) == '.' {
            dot = j - 1;
        }
        j -= 1;
    }
    proof {
        lemma_base_subrange(path@, start as int);
        lemma_stem_subrange(path@.subrange(start as int, n as int), dot as int - start as int);
        assert(path@.subrange(start as int, n as int).subrange(0, dot as int - start as int)
            =~= path@.subrange(start as int, dot as int));
    }
    let stem = path.substring_char(start, dot);
    let mut r = stem.to_owned();
    r.append("_framed.");
    r.append(format.ext());
    r
}

/// Build the full output path: the configured directory (which carries a
/// trailing separator) followed by the output file name.
pub fn output_path(config: &Config, path: &str) -> (r: String)
    ensures
        r@ == config.outdir@ + spec_output_name(path@, config.format),
{
    let name = output_name(path, config.format);
    let mut r = config.outdir.clone();
    r.append(name.as_str());
    r
}

/// The separators of a path list read from standard input.
pub open spec fn is_space(c: char) -> bool {
    c == ' ' || c == '\t' || c == '\n' || c == '\r'
}

/// The tokens of `s` with `cur` as the partially read token to its left:
/// a separator closes the open token, any other character extends it.
pub open spec fn spec_tokens_acc(s: Seq<char>, cur: Seq<char>) -> Seq<Seq<char>>
    decreases s.len(),
{
    if s.len() == 0 {
        if cur.len() == 0 {
            Seq::empty()
        } else {
            seq![cur]
        }
    } else if is_space(s.first()) {
        (if cur.len() == 0 {
            Seq::<Seq<char>>::empty()
        } else {
            seq![cur]
        }) + spec_tokens_acc(s.drop_first(), Seq::empty())
    } else {
        spec_tokens_acc(s.drop_first(), cur.push(s.first()))
    }
}

/// The maximal whitespace-free runs of a string, in order.
pub open spec fn spec_tokens(s: Seq<char>) -> Seq<Seq<char>> {
    spec_tokens_acc(s, Seq::empty())
}

/// Split a block of text read from standard input into the path list it
/// holds: the maximal runs free of blanks, tabs and line breaks, in order.
pub fn split_paths(s: &str) -> (r: Vec<String>)
    ensures
        r.deep_view() == spec_tokens(s@),
{
    let n = s.unicode_len();
    let mut out: Vec<String> = Vec::new();
    let mut cur = String::new();
    let mut i: usize = 0;
    proof {
        assert(s@.skip(0) =~= s@);
        assert(out.deep_view() =~= Seq::<Seq<char>>::empty());
        assert(Seq::<Seq<char>>::empty() + spec_tokens_acc(s@, cur@) =~= spec_tokens_acc(s@, cur@));
    }
    while i < n
        invariant
            n == s@.len(),
            i <= n,
            out.deep_view() + spec_tokens_acc(s@.skip(i as int), cur@) == spec_tokens(s@),
        decreases n - i,
    {
        let c = s.get_char(i);
        proof {
            assert(s@.skip(i as int).first() == s@[i as int]);
            assert(s@.skip(i as int).drop_first() =~= s@.skip(i as int + 1));
        }
        if c == ' ' || c == '\t' || c == '\n' || c == '\r' {
            if cur.unicode_len() > 0 {
                let ghost prev = out.deep_view();
                let ghost tok = cur@;
                out.push(cur);
                cur = String::new();
                proof {
                    assert(out.deep_view() =~= prev + seq![tok]);
                    assert(spec_tokens_acc(s@.skip(i as int), tok) == seq![tok] + spec_tokens_acc(
                        s@.skip(i as int + 1),
                        Seq::empty(),
                    ));
                    assert(cur@ == Seq::<char>::empty());
                    assert(prev + seq![tok] + spec_tokens_acc(s@.skip(i as int + 1), cur@) =~= prev
                        + (seq![tok] + spec_tokens_acc(s@.skip(i as int + 1), cur@)));
                    assert(out.deep_view() + spec_tokens_acc(s@.skip(i as int + 1), cur@)
                        == spec_tokens(s@));
                }
            } else {
                proof {
                    assert(cur@.len() == 0);
                    assert(cur@ =~= Seq::<char>::empty());
                    assert(spec_tokens_acc(s@.skip(i as int), cur@) == Seq::<Seq<char>>::empty()
                        + spec_tokens_acc(s@.skip(i as int + 1), Seq::empty()));
                    assert(Seq::<Seq<char>>::empty() + spec_tokens_acc(
                        s@.skip(i as int + 1),
                        Seq::empty(),
                    ) =~= spec_tokens_acc(s@.skip(i as int + 1), Seq::empty()));
                    assert(out.deep_view() + spec_tokens_acc(s@.skip(i as int + 1), cur@)
                        == spec_tokens(s@));
                }
            }
        } else {
            let ghost before = cur@;
            let piece = s.substring_char(i, i + 1);
            cur.append(piece);
            proof {
                assert(piece@ =~= seq![s@[i as int]]);
                assert(cur@ =~= before.push(s@[i as int]));
                assert(spec_tokens_acc(s@.skip(i as int), before) == spec_tokens_acc(
                    s@.skip(i as int + 1),
                    before.push(s@[i as int]),
                ));
                assert(out.deep_view() + spec_tokens_acc(s@.skip(i as int + 1), cur@)
                    == spec_tokens(s@));
            }
        }
        i += 1;
    }
    if cur.unicode_len() > 0 {
        let ghost prev = out.deep_view();
        out.push(cur);
        proof {
            assert(out.deep_view() =~= prev.push(cur@));
            assert(prev.push(cur@) =~= prev + seq![cur@]);
        }
    }
    proof {
        assert(s@.skip(n as int) =~= Seq::<char>::empty());
        assert(out.deep_view() =~= spec_tokens(s@));
    }
    out
}

} // verus!
