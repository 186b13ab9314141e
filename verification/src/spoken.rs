//! What the tokens of a text say, taken together.
//!
//! A text is said in full: its tokens, put one after the other, hold every
//! character of the text but full stops, line breaks, underscores and the
//! white space next to them, in the order of the text and with nothing added.

use crate::token::{
    ends_text, in_pause, leading_pause, lemma_pause_run_ends, lemma_step_advances,
    lemma_text_run_ends, pause_run, step, text_run, tokens_from, tokens_of, trimmed, white_space,
    Cursor, Style, TokenView,
};
use vstd::prelude::*;

verus! {

/// Characters that are always said: no white space, no full stop, no line
/// break and no underscore.
pub open spec fn is_text(c: char) -> bool {
    !ends_text(c) && !white_space(c)
}

/// White space that is said where it stands between two pieces of text.
pub open spec fn is_blank(c: char) -> bool {
    !ends_text(c) && white_space(c)
}

/// Whether the nearest character before position `i` that is no blank is
/// text.
pub open spec fn text_before(s: Seq<char>, i: int) -> bool
    decreases i,
{
    if 0 < i <= s.len() {
        if is_blank(s[i - 1]) {
            text_before(s, i - 1)
        } else {
            is_text(s[i - 1])
        }
    } else {
        false
    }
}

/// Whether the nearest character after position `i` that is no blank is
/// text.
pub open spec fn text_after(s: Seq<char>, i: int) -> bool
    decreases s.len() - i,
{
    if 0 <= i + 1 < s.len() {
        if is_blank(s[i + 1]) {
            text_after(s, i + 1)
        } else {
            is_text(s[i + 1])
        }
    } else {
        false
    }
}

/// Whether the character at position `i` of `s` is said: text always, a
/// blank where text stands on both sides of the blanks around it.
pub open spec fn is_said(s: Seq<char>, i: int) -> bool {
    0 <= i < s.len() && (is_text(s[i]) || (is_blank(s[i]) && text_before(s, i) && text_after(
        s,
        i,
    )))
}

/// The characters of `s` from position `i` on that are said, in order.
pub open spec fn said_from(s: Seq<char>, i: int) -> Seq<char>
    decreases s.len() - i,
{
    if 0 <= i < s.len() {
        if is_said(s, i) {
            seq![s[i]] + said_from(s, i + 1)
        } else {
            said_from(s, i + 1)
        }
    } else {
        Seq::empty()
    }
}

/// The characters of `s` that are said, in order.
pub open spec fn said(s: Seq<char>) -> Seq<char> {
    said_from(s, 0)
}

/// The characters that `tokens` speak, one token after the other.
pub open spec fn texts(tokens: Seq<TokenView>) -> Seq<char>
    decreases tokens.len(),
{
    if tokens.len() == 0 {
        Seq::empty()
    } else {
        tokens[0].text() + texts(tokens.drop_first())
    }
}

proof fn lemma_text_after_shifts(s: Seq<char>, k: int, i: int)
    requires
        0 <= k <= i,
        k <= s.len(),
    ensures
        text_after(s, i) == text_after(s.skip(k), i - k),
    decreases s.len() - i,
{
    if i + 1 < s.len() {
        assert(s.skip(k)[i + 1 - k] == s[i + 1]);
        if is_blank(s[i + 1]) {
            lemma_text_after_shifts(s, k, i + 1);
        }
    }
}

proof fn lemma_text_before_cut(s: Seq<char>, k: int, i: int)
    requires
        0 <= k < i <= s.len(),
        !is_blank(s[k]),
    ensures
        text_before(s, i) == text_before(s.skip(k), i - k),
    decreases i,
{
    assert(s.skip(k)[i - 1 - k] == s[i - 1]);
    if is_blank(s[i - 1]) {
        lemma_text_before_cut(s, k, i - 1);
    }
}

proof fn lemma_text_before_dull(s: Seq<char>, i: int)
    requires
        0 <= i <= s.len(),
        forall|j: int| 0 <= j < i ==> !is_text(#[trigger] s[j]),
    ensures
        !text_before(s, i),
    decreases i,
{
    if i > 0 && is_blank(s[i - 1]) {
        lemma_text_before_dull(s, i - 1);
    }
}

proof fn lemma_text_before_skips_dull(s: Seq<char>, n: int, i: int)
    requires
        0 <= n <= i <= s.len(),
        forall|j: int| 0 <= j < n ==> !is_text(#[trigger] s[j]),
    ensures
        text_before(s, i) == text_before(s.skip(n), i - n),
    decreases i,
{
    if i == n {
        lemma_text_before_dull(s, n);
    } else {
        assert(s.skip(n)[i - 1 - n] == s[i - 1]);
        if is_blank(s[i - 1]) {
            lemma_text_before_skips_dull(s, n, i - 1);
        }
    }
}

proof fn lemma_text_before_in_run(s: Seq<char>, i: int)
    requires
        0 < i <= s.len(),
        is_text(s[0]),
        forall|j: int| 0 <= j < i ==> !ends_text(#[trigger] s[j]),
    ensures
        text_before(s, i),
    decreases i,
{
    if is_blank(s[i - 1]) {
        lemma_text_before_in_run(s, i - 1);
    }
}

proof fn lemma_text_after_in_run(s: Seq<char>, i: int, j: int)
    requires
        0 <= i < j < s.len(),
        is_text(s[j]),
        forall|t: int| i < t < j ==> !ends_text(#[trigger] s[t]),
    ensures
        text_after(s, i),
    decreases j - i,
{
    if i + 1 < j && is_blank(s[i + 1]) {
        lemma_text_after_in_run(s, i + 1, j);
    }
}

proof fn lemma_text_after_at_end(s: Seq<char>, i: int, k: int)
    requires
        0 <= i < k <= s.len(),
        forall|t: int| i < t < k ==> is_blank(#[trigger] s[t]),
        k < s.len() ==> ends_text(s[k]),
    ensures
        !text_after(s, i),
    decreases k - i,
{
    if i + 1 < k {
        lemma_text_after_at_end(s, i + 1, k);
    }
}

/// Where the same characters are said in `s` from `n` on as in `s` without
/// its first `n` characters, what is said from `n` on is the same.
proof fn lemma_said_from_suffix(s: Seq<char>, n: int, i: int)
    requires
        0 <= n <= i <= s.len(),
        forall|j: int| n <= j < s.len() ==> is_said(s, j) == is_said(s.skip(n), j - n),
    ensures
        said_from(s, i) == said_from(s.skip(n), i - n),
    decreases s.len() - i,
{
    if i < s.len() {
        lemma_said_from_suffix(s, n, i + 1);
        assert(s.skip(n)[i - n] == s[i]);
    }
}

proof fn lemma_said_all(s: Seq<char>, a: int, b: int)
    requires
        0 <= a <= b <= s.len(),
        forall|j: int| a <= j < b ==> is_said(s, j),
    ensures
        said_from(s, a) == s.subrange(a, b) + said_from(s, b),
    decreases b - a,
{
    if a < b {
        lemma_said_all(s, a + 1, b);
        assert(seq![s[a]] + (s.subrange(a + 1, b) + said_from(s, b)) =~= s.subrange(a, b)
            + said_from(s, b));
    } else {
        assert(s.subrange(a, b) + said_from(s, b) =~= said_from(s, b));
    }
}

proof fn lemma_said_none(s: Seq<char>, a: int, b: int)
    requires
        0 <= a <= b <= s.len(),
        forall|j: int| a <= j < b ==> !is_said(s, j),
    ensures
        said_from(s, a) == said_from(s, b),
    decreases b - a,
{
    if a < b {
        lemma_said_none(s, a + 1, b);
    }
}

/// Nothing of a start of `s` without text is said, and the rest is said as
/// if it stood alone.
proof fn lemma_said_skips_dull(s: Seq<char>, n: int)
    requires
        0 <= n <= s.len(),
        forall|j: int| 0 <= j < n ==> !is_text(#[trigger] s[j]),
    ensures
        said(s) == said(s.skip(n)),
{
    assert forall|j: int| 0 <= j < n implies !is_said(s, j) by {
        lemma_text_before_dull(s, j);
    }
    lemma_said_none(s, 0, n);
    assert forall|j: int| n <= j < s.len() implies is_said(s, j) == is_said(s.skip(n), j - n) by {
        assert(s.skip(n)[j - n] == s[j]);
        lemma_text_before_skips_dull(s, n, j);
        lemma_text_after_shifts(s, n, j);
    }
    lemma_said_from_suffix(s, n, n);
}

/// What is left of `s` without the white space at its end.
proof fn lemma_trimmed(s: Seq<char>)
    ensures
        trimmed(s).len() <= s.len(),
        trimmed(s) == s.take(trimmed(s).len() as int),
        trimmed(s).len() > 0 ==> !white_space(s[trimmed(s).len() - 1]),
        forall|j: int| trimmed(s).len() <= j < s.len() ==> white_space(#[trigger] s[j]),
    decreases s.len(),
{
    if s.len() > 0 && white_space(s.last()) {
        let front = s.drop_last();
        lemma_trimmed(front);
        let kept = trimmed(s).len() as int;
        assert(front.take(kept) =~= s.take(kept));
        assert forall|j: int| kept <= j < s.len() implies white_space(#[trigger] s[j]) by {
            if j < front.len() {
                assert(front[j] == s[j]);
            }
        }
    } else {
        assert(s.take(s.len() as int) =~= s);
    }
}

/// Of a text that starts with text and runs up to the next full stop, line
/// break or underscore, all is said but the white space at its end; what
/// comes after it is said as if it stood alone.
proof fn lemma_said_text_run(s: Seq<char>)
    requires
        s.len() > 0,
        is_text(s[0]),
    ensures
        text_run(s) > 0,
        said(s) == trimmed(s.take(text_run(s) as int)) + said(s.skip(text_run(s) as int)),
{
    let run = text_run(s) as int;
    let text = s.take(run);
    let kept = trimmed(text).len() as int;
    lemma_text_run_ends(s);
    lemma_trimmed(text);
    assert(text[0] == s[0]);
    assert(kept > 0);
    assert(text[kept - 1] == s[kept - 1]);
    assert forall|j: int| 0 <= j < kept implies is_said(s, j) by {
        if is_blank(s[j]) {
            lemma_text_before_in_run(s, j);
            lemma_text_after_in_run(s, j, kept - 1);
        }
    }
    assert forall|j: int| kept <= j < run implies !is_said(s, j) by {
        assert forall|t: int| j < t < run implies is_blank(#[trigger] s[t]) by {
            assert(text[t] == s[t]);
        }
        assert(text[j] == s[j]);
        lemma_text_after_at_end(s, j, run);
    }
    lemma_said_all(s, 0, kept);
    lemma_said_none(s, kept, run);
    assert(s.subrange(0, kept) =~= trimmed(text)) by {
        assert(text.take(kept) =~= s.subrange(0, kept));
    }
    if run < s.len() {
        assert forall|j: int| run <= j < s.len() implies is_said(s, j) == is_said(
            s.skip(run),
            j - run,
        ) by {
            assert(s.skip(run)[j - run] == s[j]);
            lemma_text_after_shifts(s, run, j);
            if j > run {
                lemma_text_before_cut(s, run, j);
            }
        }
        lemma_said_from_suffix(s, run, run);
    } else {
        assert(s.skip(run).len() == 0);
    }
}

proof fn lemma_texts_of_first(token: TokenView, rest: Seq<TokenView>)
    ensures
        texts(seq![token] + rest) == token.text() + texts(rest),
{
    let all = seq![token] + rest;
    assert(all[0] == token);
    assert(all.drop_first() =~= rest);
}

/// The tokens read from `c` on say what is left of the text: every
/// character of it that is text, and every blank between two pieces of
/// text that no full stop, line break or underscore parts, in their order
/// and with nothing else.
pub proof fn lemma_tokens_say_the_rest(c: Cursor)
    ensures
        texts(tokens_from(c)) == said(c.rest),
    decreases c.rest.len(),
{
    let s = c.rest;
    let n = pause_run(s) as int;
    let body = s.skip(n);
    let run = text_run(body) as int;
    lemma_pause_run_ends(s);
    lemma_step_advances(c);
    if s.len() == 0 {
    } else {
        assert forall|j: int| 0 <= j < n implies !is_text(#[trigger] s[j]) by {
            assert(in_pause(s[j]));
        }
        lemma_said_skips_dull(s, n);
        if leading_pause(s) is Some {
            let next = Cursor { rest: body, style: c.style };
            lemma_tokens_say_the_rest(next);
            lemma_texts_of_first(step(c).token.unwrap(), tokens_from(next));
            assert(Seq::<char>::empty() + said(body) =~= said(body));
        } else if run > 0 {
            let next = Cursor { rest: body.skip(run), style: c.style };
            lemma_text_run_ends(body);
            assert(is_text(body[0]));
            lemma_said_text_run(body);
            lemma_tokens_say_the_rest(next);
            lemma_texts_of_first(step(c).token.unwrap(), tokens_from(next));
        } else if body.len() > 0 && body[0] == '_' {
            let next = Cursor { rest: body.drop_first(), style: c.style.flipped() };
            lemma_tokens_say_the_rest(next);
            assert(step(c) == step(next));
            assert(tokens_from(c) == tokens_from(next));
            lemma_said_skips_dull(body, 1);
            assert(body.skip(1) =~= body.drop_first());
        } else {
            if body.len() > 0 {
                assert(ends_text(body[0]));
                assert(!in_pause(body[0]));
            }
        }
    }
}

/// A token that is spoken has text: it is not empty, and it neither starts
/// nor ends with white space, nor holds a full stop, a line break or an
/// underscore.
pub proof fn lemma_spoken_tokens_have_text(c: Cursor)
    ensures
        step(c).token is Some && !(step(c).token.unwrap() is Pause) ==> {
            let text = step(c).token.unwrap().text();
            &&& text.len() > 0
            &&& !white_space(text[0])
            &&& !white_space(text.last())
            &&& forall|i: int| 0 <= i < text.len() ==> !ends_text(#[trigger] text[i])
        },
    decreases c.rest.len(),
{
    let s = c.rest;
    let body = s.skip(pause_run(s) as int);
    let run = text_run(body) as int;
    lemma_pause_run_ends(s);
    if s.len() == 0 || leading_pause(s) is Some {
    } else if run > 0 {
        let text = body.take(run);
        let kept = trimmed(text).len() as int;
        lemma_text_run_ends(body);
        lemma_trimmed(text);
        assert(text[0] == body[0]);
        assert(!in_pause(body[0]));
        assert(kept > 0);
        assert(trimmed(text)[0] == text[0]);
        assert(trimmed(text).last() == text[kept - 1]);
        assert forall|i: int| 0 <= i < kept implies !ends_text(#[trigger] trimmed(text)[i]) by {
            assert(trimmed(text)[i] == text[i]);
            assert(text[i] == body[i]);
        }
        assert(step(c).token == Some(TokenView::spoken(trimmed(text), c.style)));
    } else if body.len() > 0 && body[0] == '_' {
        let next = Cursor { rest: body.drop_first(), style: c.style.flipped() };
        lemma_spoken_tokens_have_text(next);
        assert(step(c) == step(next));
    }
}

/// A text is said in full. The tokens of `text`, put one after the other,
/// are `text` without its full stops, line breaks and underscores and
/// without the white space next to them or at either end: no character is
/// added, none is left out, and none changes its place.
pub proof fn lemma_tokens_say_the_text(text: Seq<char>)
    ensures
        texts(tokens_of(text)) == said(text),
{
    lemma_tokens_say_the_rest(Cursor { rest: text, style: Style::Unemphasised });
}

} // verus!
