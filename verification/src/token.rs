//! Splitting a text into spoken parts, emphasised parts and pauses.
//!
//! A text is read from left to right. Full stops and line breaks, with the
//! white space around them, stand for pauses; an underscore switches emphasis
//! on or off; everything else is spoken. What is spoken is handed out as
//! slices of the text, without white space at either end.

use std::str::Chars;
use vstd::prelude::*;
use vstd::std_specs::iter::IteratorSpec;
use vstd::string::*;
use vstd::utf8::*;

verus! {

/// Whether `c` has the Unicode property `White_Space`.
pub uninterp spec fn white_space(c: char) -> bool;

/// `char::is_whitespace` tells whether a character has the Unicode property
/// `White_Space`. Which characters have it is not spelled out here.
pub assume_specification[ char::is_whitespace ](c: char) -> (white: bool)
    ensures
        white == white_space(c),
;

/// `Chars::as_str` hands out the part of the string that the iterator has
/// not yielded yet, as a slice of the string it was made from.
pub assume_specification<'a>[ Chars::<'a>::as_str ](chars: &Chars<'a>) -> (rest: &'a str)
    ensures
        rest@ == chars.remaining(),
;

/// How long a pause lasts.
#[derive(Debug, PartialEq, Eq, Clone, Copy)]
pub enum PauseDuration {
    /// The pause between two sentences.
    Sentence,
    /// The pause between two paragraphs.
    Paragraph,
    /// A pause of that many seconds.
    Seconds(u32),
}

/// The pause that a run with `periods` full stops and `newlines` line breaks
/// stands for, if it stands for one.
///
/// Two line breaks or more make a paragraph unless two full stops or more
/// say otherwise. One full stop ends a sentence, two end a paragraph, and
/// every further one adds a second (counted in 32 bits).
pub open spec fn pause_of(periods: nat, newlines: nat) -> Option<PauseDuration> {
    if newlines > 1 && periods < 2 {
        Some(PauseDuration::Paragraph)
    } else if periods == 0 {
        None
    } else if periods == 1 {
        Some(PauseDuration::Sentence)
    } else if periods == 2 {
        Some(PauseDuration::Paragraph)
    } else {
        Some(PauseDuration::Seconds(((periods - 2) % 0x1_0000_0000) as u32))
    }
}

impl PauseDuration {
    /// The pause for a run in which full stops and line breaks were counted.
    pub fn from(period_count: usize, newline_count: usize) -> (pause: Option<PauseDuration>)
        ensures
            pause == pause_of(period_count as nat, newline_count as nat),
    {
        if newline_count > 1 && period_count < 2 {
            Some(PauseDuration::Paragraph)
        } else if period_count == 0 {
            None
        } else if period_count == 1 {
            Some(PauseDuration::Sentence)
        } else if period_count == 2 {
            Some(PauseDuration::Paragraph)
        } else {
            let extra: u64 = (period_count - 2) as u64;
            Some(PauseDuration::Seconds((extra % 0x1_0000_0000) as u32))
        }
    }
}

/// Whether text is spoken with emphasis.
#[derive(Debug, PartialEq, Eq, Clone, Copy)]
pub enum Style {
    Unemphasised,
    Emphasised,
}

impl Style {
    /// The other style.
    pub open spec fn flipped(self) -> Style {
        match self {
            Style::Unemphasised => Style::Emphasised,
            Style::Emphasised => Style::Unemphasised,
        }
    }

    pub fn flip(&self) -> (other: Style)
        ensures
            other == self.flipped(),
    {
        match self {
            Style::Unemphasised => Style::Emphasised,
            Style::Emphasised => Style::Unemphasised,
        }
    }
}

/// One part of a text.
#[derive(Debug, PartialEq, Eq)]
pub enum Token<'a> {
    /// A piece of un-emphasised speech.
    Normal(&'a str),
    /// A piece of emphasised speech.
    Emphasised(&'a str),
    /// A pause of the given duration.
    Pause(PauseDuration),
}

/// A token as a value: its characters in place of a slice.
pub enum TokenView {
    Normal(Seq<char>),
    Emphasised(Seq<char>),
    Pause(PauseDuration),
}

impl<'a> View for Token<'a> {
    type V = TokenView;

    open spec fn view(&self) -> TokenView {
        match *self {
            Token::Normal(text) => TokenView::Normal(text@),
            Token::Emphasised(text) => TokenView::Emphasised(text@),
            Token::Pause(pause) => TokenView::Pause(pause),
        }
    }
}

impl TokenView {
    /// The token that speaks `text` in `style`.
    pub open spec fn spoken(text: Seq<char>, style: Style) -> TokenView {
        match style {
            Style::Emphasised => TokenView::Emphasised(text),
            Style::Unemphasised => TokenView::Normal(text),
        }
    }

    /// The characters that the token speaks: none for a pause.
    pub open spec fn text(self) -> Seq<char> {
        match self {
            TokenView::Normal(text) => text,
            TokenView::Emphasised(text) => text,
            TokenView::Pause(_) => Seq::empty(),
        }
    }
}

impl<'a> Token<'a> {
    fn new(text: &'a str, style: Style) -> (token: Token<'a>)
        ensures
            token@ == TokenView::spoken(text@, style),
    {
        match style {
            Style::Emphasised => Token::Emphasised(text),
            Style::Unemphasised => Token::Normal(text),
        }
    }
}

/// The view of a token that may be missing.
pub open spec fn view_of<'a>(token: Option<Token<'a>>) -> Option<TokenView> {
    match token {
        Some(token) => Some(token@),
        None => None,
    }
}

/// The views of `tokens`, one by one.
pub open spec fn views_of<'a>(tokens: Seq<Token<'a>>) -> Seq<TokenView> {
    tokens.map_values(|token: Token<'a>| token@)
}

/// Characters that belong to a run of pauses: full stops, line breaks and
/// the white space around them.
pub open spec fn in_pause(c: char) -> bool {
    c == '.' || c == '\n' || white_space(c)
}

/// Characters at which spoken text ends: an underscore, a full stop or a
/// line break.
pub open spec fn ends_text(c: char) -> bool {
    c == '_' || c == '.' || c == '\n'
}

/// How many characters at the start of `s` belong to a run of pauses.
pub open spec fn pause_run(s: Seq<char>) -> nat
    decreases s.len(),
{
    if s.len() > 0 && in_pause(s[0]) {
        1 + pause_run(s.drop_first())
    } else {
        0
    }
}

/// How many characters at the start of `s` are spoken before text ends.
pub open spec fn text_run(s: Seq<char>) -> nat
    decreases s.len(),
{
    if s.len() > 0 && !ends_text(s[0]) {
        1 + text_run(s.drop_first())
    } else {
        0
    }
}

/// How often `c` occurs in `s`.
pub open spec fn occurrences(s: Seq<char>, c: char) -> nat
    decreases s.len(),
{
    if s.len() == 0 {
        0
    } else {
        occurrences(s.drop_last(), c) + if s.last() == c {
            1nat
        } else {
            0nat
        }
    }
}

/// `s` without the white space at its end.
pub open spec fn trimmed(s: Seq<char>) -> Seq<char>
    decreases s.len(),
{
    if s.len() > 0 && white_space(s.last()) {
        trimmed(s.drop_last())
    } else {
        s
    }
}

/// The pause that the run of pauses at the start of `s` stands for.
pub open spec fn leading_pause(s: Seq<char>) -> Option<PauseDuration> {
    let run = s.take(pause_run(s) as int);
    pause_of(occurrences(run, '.'), occurrences(run, '\n'))
}

/// Where a tokenizer stands: the text not yet read, and the style in which
/// the next text is spoken.
pub struct Cursor {
    pub rest: Seq<char>,
    pub style: Style,
}

/// What one reading step yields: a token or none, and where the tokenizer
/// stands afterwards.
pub struct Step {
    pub token: Option<TokenView>,
    pub cursor: Cursor,
}

pub proof fn lemma_pause_run_bound(s: Seq<char>)
    ensures
        pause_run(s) <= s.len(),
    decreases s.len(),
{
    if s.len() > 0 && in_pause(s[0]) {
        lemma_pause_run_bound(s.drop_first());
    }
}

pub proof fn lemma_text_run_bound(s: Seq<char>)
    ensures
        text_run(s) <= s.len(),
    decreases s.len(),
{
    if s.len() > 0 && !ends_text(s[0]) {
        lemma_text_run_bound(s.drop_first());
    }
}

/// One reading step from `c`.
///
/// At the end of the text there is no token. Else the run of pauses at the
/// start is passed over; if it stands for a pause, that is the token. If it
/// does not, the text up to the next underscore, full stop or line break is
/// the token, without the white space at its end and in the current style.
/// Where there is no such text, an underscore flips the style and the step
/// goes on behind it.
pub open spec fn step(c: Cursor) -> Step
    decreases c.rest.len(),
    via step_decreases
{
    let body = c.rest.skip(pause_run(c.rest) as int);
    let run = text_run(body) as int;
    if c.rest.len() == 0 {
        Step { token: None, cursor: c }
    } else if leading_pause(c.rest) is Some {
        Step {
            token: Some(TokenView::Pause(leading_pause(c.rest).unwrap())),
            cursor: Cursor { rest: body, style: c.style },
        }
    } else if run > 0 {
        Step {
            token: Some(TokenView::spoken(trimmed(body.take(run)), c.style)),
            cursor: Cursor { rest: body.skip(run), style: c.style },
        }
    } else if body.len() > 0 && body[0] == '_' {
        step(Cursor { rest: body.drop_first(), style: c.style.flipped() })
    } else {
        Step { token: None, cursor: Cursor { rest: body, style: c.style } }
    }
}

#[via_fn]
proof fn step_decreases(c: Cursor) {
    lemma_pause_run_bound(c.rest);
}


/// A step that yields a token leaves less text to read; one that yields
/// none has read all of it. Either way what is left is an end of the text.
pub proof fn lemma_step_advances(c: Cursor)
    ensures
        step(c).token is Some ==> step(c).cursor.rest.len() < c.rest.len(),
        step(c).token is None ==> step(c).cursor.rest.len() == 0,
        step(c).cursor.rest.len() <= c.rest.len(),
        step(c).cursor.rest == c.rest.skip(c.rest.len() - step(c).cursor.rest.len()),
    decreases c.rest.len(),
{
    let body = c.rest.skip(pause_run(c.rest) as int);
    let run = text_run(body) as int;
    lemma_pause_run_bound(c.rest);
    lemma_text_run_bound(body);
    lemma_pause_run_ends(c.rest);
    if c.rest.len() == 0 {
        assert(c.rest.skip(0) =~= c.rest);
    } else if leading_pause(c.rest) is Some {
        if pause_run(c.rest) == 0 {
            assert(c.rest.take(0).len() == 0);
        }
    } else if run > 0 {
        assert(body.skip(run) =~= c.rest.skip(pause_run(c.rest) + run));
    } else if body.len() > 0 && body[0] == '_' {
        let next = Cursor { rest: body.drop_first(), style: c.style.flipped() };
        lemma_step_advances(next);
        let left = step(next).cursor.rest.len();
        assert(next.rest.skip(next.rest.len() - left) =~= c.rest.skip(c.rest.len() - left));
    } else {
        if body.len() > 0 {
            assert(!ends_text(body[0]));
        }
    }
}

/// The run of pauses at the start of `s` ends where `s` ends or where a
/// character stands that belongs to no pause.
pub proof fn lemma_pause_run_ends(s: Seq<char>)
    ensures
        pause_run(s) <= s.len(),
        pause_run(s) < s.len() ==> !in_pause(s[pause_run(s) as int]),
        pause_run(s.skip(pause_run(s) as int)) == 0,
        forall|i: int| 0 <= i < pause_run(s) ==> in_pause(#[trigger] s[i]),
    decreases s.len(),
{
    if s.len() > 0 && in_pause(s[0]) {
        let tail = s.drop_first();
        lemma_pause_run_ends(tail);
        assert(s.skip(pause_run(s) as int) =~= tail.skip(pause_run(tail) as int));
        assert forall|i: int| 0 <= i < pause_run(s) implies in_pause(#[trigger] s[i]) by {
            if i > 0 {
                assert(s[i] == tail[i - 1]);
            }
        }
    } else {
        assert(s.skip(0) =~= s);
    }
}

/// The spoken text at the start of `s` ends where `s` ends or where an
/// underscore, a full stop or a line break stands.
pub proof fn lemma_text_run_ends(s: Seq<char>)
    ensures
        text_run(s) <= s.len(),
        text_run(s) < s.len() ==> ends_text(s[text_run(s) as int]),
        forall|i: int| 0 <= i < text_run(s) ==> !ends_text(#[trigger] s[i]),
    decreases s.len(),
{
    if s.len() > 0 && !ends_text(s[0]) {
        let tail = s.drop_first();
        lemma_text_run_ends(tail);
        assert forall|i: int| 0 <= i < text_run(s) implies !ends_text(#[trigger] s[i]) by {
            if i > 0 {
                assert(s[i] == tail[i - 1]);
            }
        }
    }
}

/// All the tokens that are read from `c` on, in order.
pub open spec fn tokens_from(c: Cursor) -> Seq<TokenView>
    decreases c.rest.len(),
    via tokens_from_decreases
{
    match step(c).token {
        Some(token) => seq![token] + tokens_from(step(c).cursor),
        None => Seq::empty(),
    }
}

#[via_fn]
proof fn tokens_from_decreases(c: Cursor) {
    lemma_step_advances(c);
}

/// The tokens of `text`, read from its start and without emphasis at first.
pub open spec fn tokens_of(text: Seq<char>) -> Seq<TokenView> {
    tokens_from(Cursor { rest: text, style: Style::Unemphasised })
}

/// A text has at least as many bytes as characters.
proof fn lemma_chars_fit(s: Seq<char>)
    ensures
        s.len() <= encode_utf8(s).len(),
    decreases s.len(),
{
    if s.len() > 0 {
        lemma_chars_fit(s.drop_first());
    }
}

/// Reads a text token by token.
pub struct Tokenizer<'a> {
    rest: &'a str,
    style: Style,
}

impl<'a> View for Tokenizer<'a> {
    type V = Cursor;

    closed spec fn view(&self) -> Cursor {
        Cursor { rest: self.rest@, style: self.style }
    }
}

impl<'a> Tokenizer<'a> {
    /// A tokenizer at the start of `source`, without emphasis.
    pub fn new(source: &'a str) -> (tokenizer: Tokenizer<'a>)
        ensures
            tokenizer@ == (Cursor { rest: source@, style: Style::Unemphasised }),
    {
        Tokenizer { rest: source, style: Style::Unemphasised }
    }

    /// The next token, or `None` at the end of the text. After `None` every
    /// further call gives `None` again.
    pub fn next(&mut self) -> (token: Option<Token<'a>>)
        ensures
            step(old(self)@) == (Step { token: view_of(token), cursor: final(self)@ }),
        decreases old(self)@.rest.len(), 2nat,
    {
        if self.rest.is_empty() {
            None
        } else {
            self.consume_token()
        }
    }

    /// All the tokens that are left, in order.
    pub fn collect(self) -> (tokens: Vec<Token<'a>>)
        ensures
            views_of(tokens@) == tokens_from(self@),
    {
        let ghost start = self@;
        let mut tokenizer = self;
        let mut tokens: Vec<Token<'a>> = Vec::new();
        proof {
            assert(views_of(tokens@) =~= Seq::empty());
        }
        loop
            invariant_except_break
                views_of(tokens@) + tokens_from(tokenizer@) == tokens_from(start),
            ensures
                views_of(tokens@) == tokens_from(start),
            decreases tokenizer@.rest.len(),
        {
            let ghost before = tokenizer@;
            let ghost read = views_of(tokens@);
            match tokenizer.next() {
                None => {
                    proof {
                        assert(read + tokens_from(before) =~= read);
                    }
                    break ;
                },
                Some(token) => {
                    tokens.push(token);
                    proof {
                        lemma_step_advances(before);
                        assert(views_of(tokens@) =~= read + seq![token@]);
                        assert(views_of(tokens@) + tokens_from(tokenizer@) =~= read + tokens_from(
                            before,
                        ));
                    }
                },
            }
        }
        tokens
    }

    fn consume_token(&mut self) -> (token: Option<Token<'a>>)
        ensures
            step(old(self)@) == (Step { token: view_of(token), cursor: final(self)@ }),
        decreases old(self)@.rest.len(), 1nat,
    {
        proof {
            let c = self@;
            let body = c.rest.skip(pause_run(c.rest) as int);
            lemma_pause_run_ends(c.rest);
            assert(body.skip(0) =~= body);
            assert(body.take(0).len() == 0);
            assert(c.rest.len() == 0 ==> c.rest.take(0).len() == 0 && body =~= c.rest);
        }
        match self.consume_leading_pause() {
            Some(pause) => Some(pause),
            None => self.consume_text(),
        }
    }

    /// Passes over the run of pauses at the start of the text that is left,
    /// and gives the pause that it stands for.
    fn consume_leading_pause(&mut self) -> (pause: Option<Token<'a>>)
        ensures
            final(self)@ == (Cursor {
                rest: old(self)@.rest.skip(pause_run(old(self)@.rest) as int),
                style: old(self)@.style,
            }),
            view_of(pause) == match leading_pause(old(self)@.rest) {
                Some(duration) => Some(TokenView::Pause(duration)),
                None => None,
            },
    {
        let source: &'a str = self.rest;
        let bound = source.as_bytes().len();
        let mut chars = source.chars();
        let mut rest: &'a str = source;
        let mut seen: usize = 0;
        let mut periods: usize = 0;
        let mut newlines: usize = 0;
        proof {
            broadcast use vstd::string::group_string_axioms;

            lemma_chars_fit(source@);
            assert(source@.skip(0) =~= source@);
            assert(source@.take(0).len() == 0);
        }
        loop
            invariant_except_break
                chars.remaining() == source@.skip(seen as int),
            invariant
                seen <= source@.len() <= bound,
                rest@ == source@.skip(seen as int),
                pause_run(source@) == seen + pause_run(source@.skip(seen as int)),
                periods == occurrences(source@.take(seen as int), '.'),
                newlines == occurrences(source@.take(seen as int), '\n'),
                periods <= seen,
                newlines <= seen,
            ensures
                pause_run(source@) == seen,
            decreases source@.len() - seen,
        {
            proof {
                broadcast use vstd::string::group_string_axioms;

            }
            match chars.next() {
                None => {
                    break ;
                },
                Some(c) => {
                    if c == '.' {
                        periods += 1;
                    } else if c == '\n' {
                        newlines += 1;
                    } else if !c.is_whitespace() {
                        break ;
                    }
                    proof {
                        let left = source@.skip(seen as int);
                        assert(left.drop_first() =~= source@.skip(seen + 1));
                        assert(source@.take(seen + 1).drop_last() =~= source@.take(seen as int));
                    }
                    seen += 1;
                    rest = chars.as_str();
                },
            }
        }
        self.rest = rest;
        match PauseDuration::from(periods, newlines) {
            Some(duration) => Some(Token::Pause(duration)),
            None => None,
        }
    }

    /// Reads the text up to the next underscore, full stop or line break.
    /// Where there is none to read, an underscore flips the style and the
    /// reading goes on behind it.
    fn consume_text(&mut self) -> (token: Option<Token<'a>>)
        requires
            pause_run(old(self)@.rest) == 0,
        ensures
            step(old(self)@) == (Step { token: view_of(token), cursor: final(self)@ }),
        decreases old(self)@.rest.len(), 0nat,
    {
        let source: &'a str = self.rest;
        let bound = source.as_bytes().len();
        let mut chars = source.chars();
        let mut rest: &'a str = source;
        let mut run: usize = 0;
        let mut kept: usize = 0;
        let mut stopped = false;
        proof {
            broadcast use vstd::string::group_string_axioms;

            lemma_chars_fit(source@);
            assert(source@.skip(0) =~= source@);
            assert(source@.take(0) =~= Seq::empty());
        }
        loop
            invariant_except_break
                chars.remaining() == source@.skip(run as int),
                !stopped,
            invariant
                run <= source@.len() <= bound,
                kept <= run,
                rest@ == source@.skip(run as int),
                text_run(source@) == run + text_run(source@.skip(run as int)),
                trimmed(source@.take(run as int)) == source@.take(kept as int),
            ensures
                text_run(source@) == run,
                stopped ==> run < source@.len() && chars.remaining() == source@.skip(run + 1),
                !stopped ==> run == source@.len(),
            decreases source@.len() - run,
        {
            proof {
                broadcast use vstd::string::group_string_axioms;

            }
            match chars.next() {
                None => {
                    break ;
                },
                Some(c) => {
                    proof {
                        let left = source@.skip(run as int);
                        assert(left.drop_first() =~= source@.skip(run + 1));
                        assert(source@.take(run + 1).drop_last() =~= source@.take(run as int));
                    }
                    if c == '_' || c == '.' || c == '\n' {
                        stopped = true;
                        break ;
                    }
                    run += 1;
                    if !c.is_whitespace() {
                        kept = run;
                    }
                    rest = chars.as_str();
                },
            }
        }
        proof {
            assert(source@.skip(0) =~= source@);
            assert(source@.subrange(0, kept as int) =~= source@.take(kept as int));
        }
        if run > 0 {
            let text = source.substring_char(0, kept);
            self.rest = rest;
            Some(Token::new(text, self.style))
        } else if stopped {
            proof {
                assert(!in_pause(source@[0]));
                assert(source@.skip(1) =~= source@.drop_first());
            }
            self.style = self.style.flip();
            self.rest = chars.as_str();
            self.next()
        } else {
            None
        }
    }
}

/// The tokens of `text`, in order.
pub fn tokenize<'a>(text: &'a str) -> (tokens: Vec<Token<'a>>)
    ensures
        views_of(tokens@) == tokens_of(text@),
{
    Tokenizer::new(text).collect()
}

} // verus!
