//! Writing tokens down in the markup of a speech synthesizer.
//!
//! The synthesizers differ in the words of their markup and agree in its
//! shape: something opens the text, plain text stands as it is, emphasised
//! text stands between two marks, each pause has a mark of its own, and
//! something closes the text. Nothing stands between two tokens.

use crate::token::{tokens_of, views_of, PauseDuration, Token, TokenView, Tokenizer};
use vstd::prelude::*;
use vstd::string::*;

verus! {

/// The words of one synthesizer's markup.
pub struct Markup {
    /// What stands before the first token.
    pub open: &'static str,
    /// What stands after the last token.
    pub close: &'static str,
    /// What stands before emphasised text.
    pub emphasis_open: &'static str,
    /// What stands after emphasised text.
    pub emphasis_close: &'static str,
    /// The pause between two sentences.
    pub sentence: &'static str,
    /// The pause between two paragraphs.
    pub paragraph: &'static str,
    /// What stands before the number of a pause counted in seconds.
    pub seconds_open: &'static str,
    /// What stands after that number.
    pub seconds_close: &'static str,
}

/// The words of one synthesizer's markup, as characters.
pub struct Marks {
    pub open: Seq<char>,
    pub close: Seq<char>,
    pub emphasis_open: Seq<char>,
    pub emphasis_close: Seq<char>,
    pub sentence: Seq<char>,
    pub paragraph: Seq<char>,
    pub seconds_open: Seq<char>,
    pub seconds_close: Seq<char>,
}

impl View for Markup {
    type V = Marks;

    open spec fn view(&self) -> Marks {
        Marks {
            open: self.open@,
            close: self.close@,
            emphasis_open: self.emphasis_open@,
            emphasis_close: self.emphasis_close@,
            sentence: self.sentence@,
            paragraph: self.paragraph@,
            seconds_open: self.seconds_open@,
            seconds_close: self.seconds_close@,
        }
    }
}

/// The character for the digit `d`.
pub open spec fn digit(d: nat) -> char {
    if d == 0 {
        '0'
    } else if d == 1 {
        '1'
    } else if d == 2 {
        '2'
    } else if d == 3 {
        '3'
    } else if d == 4 {
        '4'
    } else if d == 5 {
        '5'
    } else if d == 6 {
        '6'
    } else if d == 7 {
        '7'
    } else if d == 8 {
        '8'
    } else {
        '9'
    }
}

/// `n` in decimal digits, without leading zeros.
pub open spec fn decimal(n: nat) -> Seq<char>
    decreases n,
{
    if n < 10 {
        seq![digit(n)]
    } else {
        decimal(n / 10).push(digit(n % 10))
    }
}

impl Marks {
    /// How one token is written.
    pub open spec fn piece(self, token: TokenView) -> Seq<char> {
        match token {
            TokenView::Normal(text) => text,
            TokenView::Emphasised(text) => self.emphasis_open + text + self.emphasis_close,
            TokenView::Pause(PauseDuration::Sentence) => self.sentence,
            TokenView::Pause(PauseDuration::Paragraph) => self.paragraph,
            TokenView::Pause(PauseDuration::Seconds(seconds)) => self.seconds_open + decimal(
                seconds as nat,
            ) + self.seconds_close,
        }
    }

    /// How `tokens` are written, one after the other.
    pub open spec fn pieces(self, tokens: Seq<TokenView>) -> Seq<char>
        decreases tokens.len(),
    {
        if tokens.len() == 0 {
            Seq::empty()
        } else {
            self.pieces(tokens.drop_last()) + self.piece(tokens.last())
        }
    }

    /// The markup for `tokens`.
    pub open spec fn written(self, tokens: Seq<TokenView>) -> Seq<char> {
        self.open + self.pieces(tokens) + self.close
    }
}

/// The digit `d` as a string.
fn digit_str(d: u32) -> (s: &'static str)
    requires
        d < 10,
    ensures
        s@ == seq![digit(d as nat)],
{
    proof {
        reveal_strlit("0");
        reveal_strlit("1");
        reveal_strlit("2");
        reveal_strlit("3");
        reveal_strlit("4");
        reveal_strlit("5");
        reveal_strlit("6");
        reveal_strlit("7");
        reveal_strlit("8");
        reveal_strlit("9");
    }
    let s = if d == 0 {
        "0"
    } else if d == 1 {
        "1"
    } else if d == 2 {
        "2"
    } else if d == 3 {
        "3"
    } else if d == 4 {
        "4"
    } else if d == 5 {
        "5"
    } else if d == 6 {
        "6"
    } else if d == 7 {
        "7"
    } else if d == 8 {
        "8"
    } else {
        "9"
    };
    assert(s@ =~= seq![digit(d as nat)]);
    s
}

/// Appends `n` in decimal digits to `out`.
pub fn push_decimal(out: &mut String, n: u32)
    ensures
        final(out)@ == old(out)@ + decimal(n as nat),
    decreases n,
{
    if n >= 10 {
        push_decimal(out, n / 10);
    }
    out.append(digit_str(n % 10));
    proof {
        if n >= 10 {
            assert(old(out)@ + decimal(n as nat / 10) + seq![digit(n as nat % 10)] =~= old(out)@
                + decimal(n as nat));
        }
    }
}

impl Markup {
    /// Appends `token` to `out` as this markup writes it.
    pub fn push_token(&self, out: &mut String, token: &Token<'_>)
        ensures
            final(out)@ == old(out)@ + self@.piece(token@),
    {
        match token {
            Token::Normal(text) => {
                out.append(text);
            },
            Token::Emphasised(text) => {
                out.append(self.emphasis_open);
                out.append(text);
                out.append(self.emphasis_close);
                assert(final(out)@ =~= old(out)@ + self@.piece(token@));
            },
            Token::Pause(PauseDuration::Sentence) => {
                out.append(self.sentence);
            },
            Token::Pause(PauseDuration::Paragraph) => {
                out.append(self.paragraph);
            },
            Token::Pause(PauseDuration::Seconds(seconds)) => {
                out.append(self.seconds_open);
                push_decimal(out, *seconds);
                out.append(self.seconds_close);
                assert(final(out)@ =~= old(out)@ + self@.piece(token@));
            },
        }
    }

    /// The markup for `text`: what opens it, its tokens one after the
    /// other, and what closes it.
    pub fn write(&self, text: &str) -> (out: String)
        ensures
            out@ == self@.written(tokens_of(text@)),
    {
        let tokens = Tokenizer::new(text).collect();
        let mut out = String::new();
        out.append(self.open);
        let mut i: usize = 0;
        assert(views_of(tokens@).take(0) =~= Seq::empty());
        while i < tokens.len()
            invariant
                i <= tokens.len(),
                views_of(tokens@) == tokens_of(text@),
                out@ == self@.open + self@.pieces(views_of(tokens@).take(i as int)),
            decreases tokens.len() - i,
        {
            self.push_token(&mut out, &tokens[i]);
            proof {
                let all = views_of(tokens@);
                assert(all.take(i + 1).drop_last() =~= all.take(i as int));
                assert(all.take(i + 1).last() == tokens@[i as int]@);
                assert(out@ =~= self@.open + self@.pieces(all.take(i + 1)));
            }
            i += 1;
        }
        assert(views_of(tokens@).take(i as int) =~= views_of(tokens@));
        out.append(self.close);
        out
    }
}

} // verus!
