//! Escaping of user and listing text placed into messages sent in HTML mode.

use vstd::prelude::*;
use crate::text::{chars_of, push_char};

verus! {

/// What one character becomes in escaped text: `&`, `<`, `>` and `"` become
/// the entities `&amp;`, `&lt;`, `&gt;` and `&quot;`; any other character
/// stays.
pub open spec fn escape_char(c: char) -> Seq<char> {
    if c == '&' {
        seq!['&', 'a', 'm', 'p', ';']
    } else if c == '<' {
        seq!['&', 'l', 't', ';']
    } else if c == '>' {
        seq!['&', 'g', 't', ';']
    } else if c == '"' {
        seq!['&', 'q', 'u', 'o', 't', ';']
    } else {
        seq![c]
    }
}

/// Text with each character escaped.
pub open spec fn escaped_html(s: Seq<char>) -> Seq<char>
    decreases s.len(),
{
    if s.len() == 0 {
        s
    } else {
        escaped_html(s.drop_last()) + escape_char(s.last())
    }
}

/// Characters that HTML markup is made of and that escaped text never holds.
pub open spec fn is_markup_char(c: char) -> bool {
    c == '<' || c == '>' || c == '"'
}

/// Escapes text for an HTML message (`escape_html`).
pub fn escape_html(value: &str) -> (r: String)
    ensures
        r@ == escaped_html(value@),
{
    let v = chars_of(value);
    let mut r = String::new();
    let mut k: usize = 0;
    while k < v.len()
        invariant
            k <= v.len(),
            v@ == value@,
            r@ == escaped_html(v@.subrange(0, k as int)),
        decreases v.len() - k,
    {
        let c = v[k];
        if c == '&' {
            push_char(&mut r, '&');
            push_char(&mut r, 'a');
            push_char(&mut r, 'm');
            push_char(&mut r, 'p');
            push_char(&mut r, ';');
        } else if c == '<' {
            push_char(&mut r, '&');
            push_char(&mut r, 'l');
            push_char(&mut r, 't');
            push_char(&mut r, ';');
        } else if c == '>' {
            push_char(&mut r, '&');
            push_char(&mut r, 'g');
            push_char(&mut r, 't');
            push_char(&mut r, ';');
        } else if c == '"' {
            push_char(&mut r, '&');
            push_char(&mut r, 'q');
            push_char(&mut r, 'u');
            push_char(&mut r, 'o');
            push_char(&mut r, 't');
            push_char(&mut r, ';');
        } else {
            push_char(&mut r, c);
        }
        let ghost pre = v@.subrange(0, k + 1);
        assert(pre.drop_last() =~= v@.subrange(0, k as int));
        assert(pre.last() == c);
        assert(r@ =~= escaped_html(pre));
        k = k + 1;
    }
    assert(v@.subrange(0, v.len() as int) =~= v@);
    r
}

/// Escaped text holds no `<`, `>` or `"`: whatever a user or a listing
/// supplies cannot open a tag or close an attribute in an HTML message.
pub proof fn escaped_html_has_no_markup(s: Seq<char>)
    ensures
        forall|i: int| 0 <= i < escaped_html(s).len() ==> !is_markup_char(#[trigger] escaped_html(s)[i]),
    decreases s.len(),
{
    if s.len() > 0 {
        escaped_html_has_no_markup(s.drop_last());
        let a = escaped_html(s.drop_last());
        let b = escape_char(s.last());
        assert forall|i: int| 0 <= i < escaped_html(s).len() implies !is_markup_char(#[trigger] escaped_html(s)[i]) by {
            if i < a.len() {
                assert(escaped_html(s)[i] == a[i]);
            } else {
                assert(escaped_html(s)[i] == b[i - a.len()]);
            }
        }
    }
}

/// Text without `&`, `<`, `>` or `"` is left as it is.
pub proof fn escaped_html_keeps_plain_text(s: Seq<char>)
    requires
        forall|i: int| 0 <= i < s.len() ==> s[i] != '&' && !is_markup_char(#[trigger] s[i]),
    ensures
        escaped_html(s) == s,
    decreases s.len(),
{
    if s.len() > 0 {
        escaped_html_keeps_plain_text(s.drop_last());
        assert(s.drop_last() + seq![s.last()] =~= s);
    }
}

/// Escaped text read back from the left: `&amp;`, `&lt;`, `&gt;` and `&quot;`
/// become `&`, `<`, `>` and `"`; any other character stays.
pub open spec fn unescaped_html(r: Seq<char>) -> Seq<char>
    decreases r.len(),
{
    if r.len() == 0 {
        r
    } else if r.len() >= 5 && r.subrange(0, 5) == seq!['&', 'a', 'm', 'p', ';'] {
        seq!['&'] + unescaped_html(r.skip(5))
    } else if r.len() >= 4 && r.subrange(0, 4) == seq!['&', 'l', 't', ';'] {
        seq!['<'] + unescaped_html(r.skip(4))
    } else if r.len() >= 4 && r.subrange(0, 4) == seq!['&', 'g', 't', ';'] {
        seq!['>'] + unescaped_html(r.skip(4))
    } else if r.len() >= 6 && r.subrange(0, 6) == seq!['&', 'q', 'u', 'o', 't', ';'] {
        seq!['"'] + unescaped_html(r.skip(6))
    } else {
        seq![r[0]] + unescaped_html(r.skip(1))
    }
}

proof fn lemma_escaped_cons(c: char, t: Seq<char>)
    ensures
        escaped_html(seq![c] + t) == escape_char(c) + escaped_html(t),
    decreases t.len(),
{
    if t.len() == 0 {
        assert(seq![c] + t =~= seq![c]);
        assert(seq![c].drop_last() =~= Seq::<char>::empty());
        assert(escaped_html(seq![c]) =~= escape_char(c)) by {
            reveal_with_fuel(escaped_html, 2);
            assert(seq![c].last() == c);
        }
        assert(escape_char(c) + escaped_html(t) =~= escape_char(c));
    } else {
        lemma_escaped_cons(c, t.drop_last());
        assert((seq![c] + t).drop_last() =~= seq![c] + t.drop_last());
        assert((seq![c] + t).last() == t.last());
        assert(escape_char(c) + escaped_html(t) =~= escape_char(c) + escaped_html(t.drop_last()) + escape_char(t.last()));
    }
}

/// Reading escaped text back gives the text that was escaped: escaping loses
/// nothing.
pub proof fn escaped_html_reads_back(s: Seq<char>)
    ensures
        unescaped_html(escaped_html(s)) == s,
    decreases s.len(),
{
    if s.len() > 0 {
        let c = s[0];
        let t = s.skip(1);
        assert(seq![c] + t =~= s);
        lemma_escaped_cons(c, t);
        escaped_html_reads_back(t);
        let e = escape_char(c);
        let r = e + escaped_html(t);
        assert(r.skip(e.len() as int) =~= escaped_html(t));
        assert(r.subrange(0, e.len() as int) =~= e);
        if c == '&' {
            assert(r.subrange(0, 5) =~= seq!['&', 'a', 'm', 'p', ';']);
        } else if c == '<' {
            if r.len() >= 5 {
                assert(r.subrange(0, 5)[1] == r[1]);
                assert(r[1] == 'l');
                assert(r.subrange(0, 5) != seq!['&', 'a', 'm', 'p', ';']);
            }
            assert(r.subrange(0, 4) =~= seq!['&', 'l', 't', ';']);
        } else if c == '>' {
            if r.len() >= 5 {
                assert(r.subrange(0, 5)[1] == r[1]);
                assert(r[1] == 'g');
                assert(r.subrange(0, 5) != seq!['&', 'a', 'm', 'p', ';']);
            }
            if r.len() >= 4 {
                assert(r.subrange(0, 4)[1] == r[1]);
                assert(r[1] == 'g');
                assert(r.subrange(0, 4) != seq!['&', 'l', 't', ';']);
            }
            assert(r.subrange(0, 4) =~= seq!['&', 'g', 't', ';']);
        } else if c == '"' {
            if r.len() >= 5 {
                assert(r.subrange(0, 5)[1] == r[1]);
                assert(r[1] == 'q');
                assert(r.subrange(0, 5) != seq!['&', 'a', 'm', 'p', ';']);
            }
            if r.len() >= 4 {
                assert(r.subrange(0, 4)[1] == r[1]);
                assert(r[1] == 'q');
                assert(r.subrange(0, 4) != seq!['&', 'l', 't', ';']);
            }
            if r.len() >= 4 {
                assert(r.subrange(0, 4)[1] == r[1]);
                assert(r[1] == 'q');
                assert(r.subrange(0, 4) != seq!['&', 'g', 't', ';']);
            }
            assert(r.subrange(0, 6) =~= seq!['&', 'q', 'u', 'o', 't', ';']);
        } else {
            assert(r[0] == c);
            if r.len() >= 5 {
                assert(r.subrange(0, 5)[0] == c);
            }
            if r.len() >= 4 {
                assert(r.subrange(0, 4)[0] == c);
            }
            if r.len() >= 6 {
                assert(r.subrange(0, 6)[0] == c);
            }
        }
    }
}

/// Every occurrence of `p` in `s`, found left to right without overlap,
/// replaced by `r` (as `str::replace` does).
pub open spec fn replace_all(s: Seq<char>, p: Seq<char>, r: Seq<char>) -> Seq<char>
    decreases s.len(),
{
    if s.len() == 0 {
        s
    } else if p.len() > 0 && p.is_prefix_of(s) {
        r + replace_all(s.skip(p.len() as int), p, r)
    } else {
        seq![s[0]] + replace_all(s.skip(1), p, r)
    }
}

/// Escaped text decoded by replacing the entities in turn: `&quot;`, then
/// `&gt;`, then `&lt;`, and last `&amp;`.
pub open spec fn entities_replaced(r: Seq<char>) -> Seq<char> {
    replace_all(
        replace_all(
            replace_all(
                replace_all(r, seq!['&', 'q', 'u', 'o', 't', ';'], seq!['"']),
                seq!['&', 'g', 't', ';'], seq!['>']),
            seq!['&', 'l', 't', ';'], seq!['<']),
        seq!['&', 'a', 'm', 'p', ';'], seq!['&'])
}

/// The concatenation of a sequence of texts.
pub open spec fn joined(ts: Seq<Seq<char>>) -> Seq<char>
    decreases ts.len(),
{
    if ts.len() == 0 {
        Seq::empty()
    } else {
        ts[0] + joined(ts.skip(1))
    }
}

/// One of the four entities.
pub open spec fn is_entity(t: Seq<char>) -> bool {
    t == seq!['&', 'a', 'm', 'p', ';'] || t == seq!['&', 'l', 't', ';']
        || t == seq!['&', 'g', 't', ';'] || t == seq!['&', 'q', 'u', 'o', 't', ';']
}

/// What a character of the text has become after `k` of the four
/// replacements.
pub open spec fn stage_token(c: char, k: int) -> Seq<char> {
    if c == '"' && k >= 1 {
        seq!['"']
    } else if c == '>' && k >= 2 {
        seq!['>']
    } else if c == '<' && k >= 3 {
        seq!['<']
    } else if c == '&' && k >= 4 {
        seq!['&']
    } else {
        escape_char(c)
    }
}

/// The text's characters after `k` of the four replacements.
pub open spec fn stage_tokens(s: Seq<char>, k: int) -> Seq<Seq<char>> {
    Seq::new(s.len(), |i: int| stage_token(s[i], k))
}

proof fn lemma_prefix_free_passes(y: Seq<char>, x: Seq<char>, p: Seq<char>, r: Seq<char>)
    requires
        p.len() > 0,
        p[0] == '&',
        forall|i: int| 0 <= i < y.len() ==> y[i] != '&',
    ensures
        replace_all(y + x, p, r) == y + replace_all(x, p, r),
    decreases y.len(),
{
    if y.len() > 0 {
        let yx = y + x;
        assert(yx[0] == y[0]);
        assert(!p.is_prefix_of(yx)) by {
            if p.is_prefix_of(yx) {
                assert(p[0] == yx.subrange(0, p.len() as int)[0]);
            }
        }
        assert(yx.skip(1) =~= y.skip(1) + x);
        lemma_prefix_free_passes(y.skip(1), x, p, r);
        assert(seq![y[0]] + (y.skip(1) + replace_all(x, p, r)) =~= y + replace_all(x, p, r));
    }
}

proof fn lemma_replace_tokens(ts: Seq<Seq<char>>, us: Seq<Seq<char>>, p: Seq<char>, r: Seq<char>)
    requires
        is_entity(p),
        us.len() == ts.len(),
        forall|i: int| 0 <= i < ts.len() ==> is_entity(#[trigger] ts[i]) || (ts[i].len() == 1 && ts[i][0] != '&'),
        forall|i: int| 0 <= i < ts.len() ==> #[trigger] us[i] == if ts[i] == p { r } else { ts[i] },
    ensures
        replace_all(joined(ts), p, r) == joined(us),
    decreases ts.len(),
{
    if ts.len() == 0 {
        assert(joined(ts) =~= Seq::<char>::empty());
    } else {
        let t = ts[0];
        let rest = ts.skip(1);
        let x = joined(rest);
        assert(joined(ts) == t + x);
        assert(joined(us) == us[0] + joined(us.skip(1)));
        lemma_replace_tokens(rest, us.skip(1), p, r);
        let tx = t + x;
        if t == p {
            assert(p.is_prefix_of(tx)) by {
                assert(tx.subrange(0, p.len() as int) =~= p);
            }
            assert(tx.skip(p.len() as int) =~= x);
        } else if t.len() == 1 {
            lemma_prefix_free_passes(t, x, p, r);
        } else {
            assert(t[0] == '&' && t.len() >= 2 && t[1] != p[1]);
            assert(!p.is_prefix_of(tx)) by {
                if p.is_prefix_of(tx) {
                    assert(p[1] == tx.subrange(0, p.len() as int)[1]);
                    assert(tx[1] == t[1]);
                }
            }
            assert(tx.skip(1) =~= t.skip(1) + x);
            lemma_prefix_free_passes(t.skip(1), x, p, r);
            assert(seq![tx[0]] + (t.skip(1) + replace_all(x, p, r)) =~= t + replace_all(x, p, r));
        }
    }
}

proof fn lemma_escaped_joined(s: Seq<char>)
    ensures
        escaped_html(s) == joined(stage_tokens(s, 0)),
    decreases s.len(),
{
    if s.len() == 0 {
        assert(joined(stage_tokens(s, 0)) =~= Seq::<char>::empty());
    } else {
        let t = s.skip(1);
        assert(seq![s[0]] + t =~= s);
        lemma_escaped_cons(s[0], t);
        lemma_escaped_joined(t);
        assert(stage_tokens(s, 0).skip(1) =~= stage_tokens(t, 0));
    }
}

proof fn lemma_joined_singles(s: Seq<char>)
    ensures
        joined(stage_tokens(s, 4)) == s,
    decreases s.len(),
{
    if s.len() > 0 {
        let t = s.skip(1);
        lemma_joined_singles(t);
        assert(stage_tokens(s, 4).skip(1) =~= stage_tokens(t, 4));
        assert(stage_tokens(s, 4)[0] =~= seq![s[0]]);
        assert(seq![s[0]] + t =~= s);
    }
}

proof fn lemma_stage(s: Seq<char>, k: int, p: Seq<char>, r: Seq<char>, c: char)
    requires
        0 <= k < 4,
        p == escape_char(c),
        r == seq![c],
        c == (if k == 0 { '"' } else if k == 1 { '>' } else if k == 2 { '<' } else { '&' }),
    ensures
        replace_all(joined(stage_tokens(s, k)), p, r) == joined(stage_tokens(s, k + 1)),
{
    let ts = stage_tokens(s, k);
    let us = stage_tokens(s, k + 1);
    assert forall|i: int| 0 <= i < ts.len() implies is_entity(#[trigger] ts[i]) || (ts[i].len() == 1 && ts[i][0] != '&') by {
        assert(ts[i] == stage_token(s[i], k));
    }
    assert forall|i: int| 0 <= i < ts.len() implies #[trigger] us[i] == if ts[i] == p { r } else { ts[i] } by {
        let d = s[i];
        assert(ts[i] == stage_token(d, k));
        assert(us[i] == stage_token(d, k + 1));
        if ts[i] == p {
            if d != c {
                assert(ts[i].len() == p.len());
                assert(ts[i][1] == p[1]);
            }
        }
    }
    assert(is_entity(p));
    lemma_replace_tokens(ts, us, p, r);
}

/// Replacing the entities of escaped text in turn (`&quot;`, `&gt;`, `&lt;`,
/// then `&amp;`) gives back the text that was escaped.
pub proof fn escaped_html_reads_back_in_turn(s: Seq<char>)
    ensures
        entities_replaced(escaped_html(s)) == s,
{
    lemma_escaped_joined(s);
    lemma_stage(s, 0, seq!['&', 'q', 'u', 'o', 't', ';'], seq!['"'], '"');
    lemma_stage(s, 1, seq!['&', 'g', 't', ';'], seq!['>'], '>');
    lemma_stage(s, 2, seq!['&', 'l', 't', ';'], seq!['<'], '<');
    lemma_stage(s, 3, seq!['&', 'a', 'm', 'p', ';'], seq!['&'], '&');
    lemma_joined_singles(s);
}

} // verus!
