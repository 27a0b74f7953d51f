use vstd::prelude::*;

use crate::utils::text::{chars_of, push_char};

verus! {

broadcast use vstd::string::axiom_spec_iter;

/// What one character of todo text becomes in a notification body.
pub open spec fn escape_char(c: char) -> Seq<char> {
    if c == '&' {
        seq!['&', 'a', 'm', 'p', ';']
    } else if c == '<' {
        seq!['&', 'l', 't', ';']
    } else if c == '>' {
        seq!['&', 'g', 't', ';']
    } else {
        seq![c]
    }
}

/// `text` with `&`, `<` and `>` replaced by `&amp;`, `&lt;` and `&gt;`.
pub open spec fn escaped(text: Seq<char>) -> Seq<char>
    decreases text.len(),
{
    if text.len() == 0 {
        Seq::empty()
    } else {
        escaped(text.drop_last()) + escape_char(text.last())
    }
}

/// Escapes the markup the freedesktop notification spec allows in bodies
/// (`<b>`, `<i>`, `<a>`, `<img>`), so todo text is shown literally instead of
/// being interpreted by the notification daemon.
pub fn escape_markup(text: &str) -> (res: String)
    ensures
        res@ == escaped(text@),
{
    let chars = chars_of(text);
    let mut out = String::new();
    let mut i: usize = 0;
    while i < chars.len()
        invariant
            chars@ == text@,
            i <= chars@.len(),
            out@ == escaped(text@.take(i as int)),
        decreases chars.len() - i,
    {
        let c = chars[i];
        assert(text@.take(i + 1).drop_last() =~= text@.take(i as int));
        if c == '&' {
            proof {
                reveal_strlit("&amp;");
                assert("&amp;"@ =~= escape_char(c));
            }
            out.append("&amp;");
        } else if c == '<' {
            proof {
                reveal_strlit("&lt;");
                assert("&lt;"@ =~= escape_char(c));
            }
            out.append("&lt;");
        } else if c == '>' {
            proof {
                reveal_strlit("&gt;");
                assert("&gt;"@ =~= escape_char(c));
            }
            out.append("&gt;");
        } else {
            push_char(&mut out, c);
            assert(seq![c] =~= escape_char(c));
            assert(out@ =~= escaped(text@.take(i as int)) + escape_char(c));
        }
        i = i + 1;
    }
    assert(text@.take(chars@.len() as int) =~= text@);
    out
}

/// Escaped text holds no `<` or `>`, so the notification daemon finds no markup in it.
pub proof fn lemma_escaped_has_no_markup(text: Seq<char>)
    ensures
        forall|i: int| 0 <= i < escaped(text).len() ==> #[trigger] escaped(text)[i] != '<'
            && escaped(text)[i] != '>',
    decreases text.len(),
{
    if text.len() > 0 {
        lemma_escaped_has_no_markup(text.drop_last());
        let a = escaped(text.drop_last());
        let b = escape_char(text.last());
        assert forall|i: int| 0 <= i < escaped(text).len() implies #[trigger] escaped(text)[i]
            != '<' && escaped(text)[i] != '>' by {
            if i < a.len() {
                assert(escaped(text)[i] == a[i]);
            } else {
                assert(escaped(text)[i] == b[i - a.len()]);
            }
        }
    }
}

/// Text without `&`, `<` and `>` is left as it is.
pub proof fn lemma_plain_text_is_unchanged(text: Seq<char>)
    requires
        forall|i: int| 0 <= i < text.len() ==> #[trigger] text[i] != '&' && text[i] != '<'
            && text[i] != '>',
    ensures
        escaped(text) == text,
    decreases text.len(),
{
    if text.len() > 0 {
        lemma_plain_text_is_unchanged(text.drop_last());
        assert(text.drop_last().push(text.last()) =~= text);
        assert(escaped(text) =~= text);
    }
}

/// An entity written by `escape_char` starts at position `i` of `s`, within `s`.
pub open spec fn entity_at(s: Seq<char>, i: int) -> bool {
    ||| (i + 4 < s.len() && s[i + 1] == 'a' && s[i + 2] == 'm' && s[i + 3] == 'p' && s[i + 4] == ';')
    ||| (i + 3 < s.len() && s[i + 1] == 'l' && s[i + 2] == 't' && s[i + 3] == ';')
    ||| (i + 3 < s.len() && s[i + 1] == 'g' && s[i + 2] == 't' && s[i + 3] == ';')
}

/// Every `&` in `s` starts a whole entity.
pub open spec fn entities_complete(s: Seq<char>) -> bool {
    forall|i: int| 0 <= i < s.len() && #[trigger] s[i] == '&' ==> entity_at(s, i)
}

pub open spec fn ends_with_amp(s: Seq<char>) -> bool {
    let n = s.len() as int;
    n >= 5 && s[n - 5] == '&' && s[n - 4] == 'a' && s[n - 3] == 'm' && s[n - 2] == 'p' && s[n
        - 1] == ';'
}

pub open spec fn ends_with_lt(s: Seq<char>) -> bool {
    let n = s.len() as int;
    n >= 4 && s[n - 4] == '&' && s[n - 3] == 'l' && s[n - 2] == 't' && s[n - 1] == ';'
}

pub open spec fn ends_with_gt(s: Seq<char>) -> bool {
    let n = s.len() as int;
    n >= 4 && s[n - 4] == '&' && s[n - 3] == 'g' && s[n - 2] == 't' && s[n - 1] == ';'
}

/// Reading escaped text back: `&amp;`, `&lt;` and `&gt;` become `&`, `<` and `>`.
pub open spec fn unescaped(s: Seq<char>) -> Seq<char>
    decreases s.len(),
{
    if s.len() == 0 {
        Seq::empty()
    } else if ends_with_amp(s) {
        unescaped(s.subrange(0, s.len() - 5)).push('&')
    } else if ends_with_lt(s) {
        unescaped(s.subrange(0, s.len() - 4)).push('<')
    } else if ends_with_gt(s) {
        unescaped(s.subrange(0, s.len() - 4)).push('>')
    } else {
        unescaped(s.drop_last()).push(s.last())
    }
}

proof fn lemma_escaped_entities_complete(text: Seq<char>)
    ensures
        entities_complete(escaped(text)),
    decreases text.len(),
{
    if text.len() > 0 {
        lemma_escaped_entities_complete(text.drop_last());
        let a = escaped(text.drop_last());
        let p = escape_char(text.last());
        let e = escaped(text);
        assert(e == a + p);
        assert forall|i: int| 0 <= i < e.len() && #[trigger] e[i] == '&' implies entity_at(e, i) by {
            if i < a.len() {
                assert(a[i] == '&');
                assert(entity_at(a, i));
            } else {
                assert(p[i - a.len()] == '&');
            }
        }
    }
}

/// Escaping then reading back gives the text again: every character is escaped exactly once.
pub proof fn lemma_escape_round_trip(text: Seq<char>)
    ensures
        unescaped(escaped(text)) == text,
    decreases text.len(),
{
    if text.len() > 0 {
        let t0 = text.drop_last();
        let c = text.last();
        lemma_escape_round_trip(t0);
        lemma_escaped_entities_complete(t0);
        let a = escaped(t0);
        let p = escape_char(c);
        let e = escaped(text);
        assert(e == a + p);
        let n = e.len() as int;
        let m = a.len() as int;
        if c == '&' {
            assert(p == seq!['&', 'a', 'm', 'p', ';']);
            assert(e[n - 5] == p[0] && e[n - 4] == p[1] && e[n - 3] == p[2] && e[n - 2] == p[3]
                && e[n - 1] == p[4]);
            assert(ends_with_amp(e));
            assert(e.subrange(0, n - 5) =~= a);
        } else if c == '<' {
            assert(p == seq!['&', 'l', 't', ';']);
            assert(e[n - 4] == p[0] && e[n - 3] == p[1] && e[n - 2] == p[2] && e[n - 1] == p[3]);
            assert(!ends_with_amp(e));
            assert(ends_with_lt(e));
            assert(e.subrange(0, n - 4) =~= a);
        } else if c == '>' {
            assert(p == seq!['&', 'g', 't', ';']);
            assert(e[n - 4] == p[0] && e[n - 3] == p[1] && e[n - 2] == p[2] && e[n - 1] == p[3]);
            assert(!ends_with_amp(e));
            assert(!ends_with_lt(e));
            assert(ends_with_gt(e));
            assert(e.subrange(0, n - 4) =~= a);
        } else {
            assert(p == seq![c]);
            assert(n == m + 1);
            assert(e.drop_last() =~= a);
            assert(e.last() == c);
            if c == ';' {
                if ends_with_amp(e) {
                    assert(a[m - 4] == '&');
                    assert(entity_at(a, m - 4));
                    assert(false);
                }
                if ends_with_lt(e) || ends_with_gt(e) {
                    assert(a[m - 3] == '&');
                    assert(entity_at(a, m - 3));
                    assert(false);
                }
            }
        }
        assert(text =~= t0.push(c));
    }
}

/// The summary line of a desktop notification: the app name, a dash, then `summary`.
pub open spec fn notification_summary_of(summary: Seq<char>) -> Seq<char> {
    "orivo — "@ + summary
}

/// Prepends the app name to a notification summary.
pub fn notification_summary(summary: &str) -> (res: String)
    ensures
        res@ == notification_summary_of(summary@),
{
    let mut out = "orivo — ".to_owned();
    out.append(summary);
    out
}

} // verus!
