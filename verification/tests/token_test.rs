use tavla::token::{tokenize, PauseDuration, Style, Token, Tokenizer};

#[test]
fn unemphasised_string() {
    let mut tokenizer = Tokenizer::new("holodrio");
    assert_eq!(
        tokenizer.next().expect("Expected a single token"),
        Token::Normal("holodrio")
    );
    assert_eq!(tokenizer.next(), None);
    assert!(tokenizer.next().is_none());
    assert!(tokenizer.next().is_none());
}

#[test]
fn emphasised_string() {
    let mut tokenizer = Tokenizer::new("   holodrio _there_");
    assert_eq!(tokenizer.next(), Some(Token::Normal("holodrio")));
    assert_eq!(tokenizer.next(), Some(Token::Emphasised("there")));
    assert_eq!(tokenizer.next(), None);
    assert!(tokenizer.next().is_none());
    assert!(tokenizer.next().is_none());
}

#[test]
fn emphasised_unclosed_string() {
    let mut tokenizer = Tokenizer::new("holodrio _there");
    assert_eq!(tokenizer.next(), Some(Token::Normal("holodrio")));
    assert_eq!(tokenizer.next(), Some(Token::Emphasised("there")));
    assert_eq!(tokenizer.next(), None);
    assert!(tokenizer.next().is_none());
    assert!(tokenizer.next().is_none());
}

#[test]
fn emphasised_unclosed_string_with_pause_after() {
    let mut tokenizer = Tokenizer::new("holodrio _there.");
    assert_eq!(tokenizer.next(), Some(Token::Normal("holodrio")));
    assert_eq!(tokenizer.next(), Some(Token::Emphasised("there")));
    assert_eq!(
        tokenizer.next(),
        Some(Token::Pause(PauseDuration::Sentence))
    );
    assert_eq!(tokenizer.next(), None);
    assert!(tokenizer.next().is_none());
    assert!(tokenizer.next().is_none());
}

#[test]
fn mixed_string() {
    let mut tokenizer = Tokenizer::new("plain ..\n\n\n\n. _emph_. plain again ..");
    assert_eq!(tokenizer.next(), Some(Token::Normal("plain")));
    assert_eq!(
        tokenizer.next(),
        Some(Token::Pause(PauseDuration::Seconds(1)))
    );
    assert_eq!(tokenizer.next(), Some(Token::Emphasised("emph")));
    assert_eq!(
        tokenizer.next(),
        Some(Token::Pause(PauseDuration::Sentence))
    );
    assert_eq!(tokenizer.next(), Some(Token::Normal("plain again")));
    assert_eq!(
        tokenizer.next(),
        Some(Token::Pause(PauseDuration::Paragraph))
    );
    assert_eq!(tokenizer.next(), None);
    assert_eq!(tokenizer.next(), None);
}

#[test]
fn speak_paragraphs() {
    // given
    const PARAGRAPHS: &str = "     
         Welcome, you have reached the suicide cell service
      hotline, how may we help you?
      Press _one_ if your machine does not work for you
      as intended and you require technical support

      Press _two_ if you changed your mind and want your
      suicide fee refunded..

      Press _three_ to learn more about the history of
      McKillys Suicide Cells..._";

    // when
    let tokens: Vec<Token> = Tokenizer::new(PARAGRAPHS).collect();

    // then
    assert_eq!(
        tokens,
        vec![
            Token::Normal("Welcome, you have reached the suicide cell service"),
            Token::Normal("hotline, how may we help you?"),
            Token::Normal("Press"),
            Token::Emphasised("one"),
            Token::Normal("if your machine does not work for you"),
            Token::Normal("as intended and you require technical support"),
            Token::Pause(PauseDuration::Paragraph),
            Token::Normal("Press"),
            Token::Emphasised("two"),
            Token::Normal("if you changed your mind and want your"),
            Token::Normal("suicide fee refunded"),
            Token::Pause(PauseDuration::Paragraph),
            Token::Normal("Press"),
            Token::Emphasised("three"),
            Token::Normal("to learn more about the history of"),
            Token::Normal("McKillys Suicide Cells"),
            Token::Pause(PauseDuration::Seconds(1))
        ]
    );
}

#[test]
fn full_stops_apart_by_white_space_are_one_run() {
    // The full stops behind "emph" are three, with white space between
    // them: one run, and with it one pause of one second.
    assert_eq!(
        tokenize("plain ... _emph_. .."),
        vec![
            Token::Normal("plain"),
            Token::Pause(PauseDuration::Seconds(1)),
            Token::Emphasised("emph"),
            Token::Pause(PauseDuration::Seconds(1)),
        ]
    );
}

#[test]
fn full_stops_apart_by_text_are_two_runs() {
    assert_eq!(
        tokenize("plain ... _emph_. and .."),
        vec![
            Token::Normal("plain"),
            Token::Pause(PauseDuration::Seconds(1)),
            Token::Emphasised("emph"),
            Token::Pause(PauseDuration::Sentence),
            Token::Normal("and"),
            Token::Pause(PauseDuration::Paragraph),
        ]
    );
}

#[test]
fn empty_and_blank_texts_have_no_tokens() {
    assert_eq!(tokenize(""), vec![]);
    assert_eq!(tokenize("   "), vec![]);
    assert_eq!(tokenize(" \t \u{a0}\u{3000} "), vec![]);
    let mut tokenizer = Tokenizer::new("   ");
    assert_eq!(tokenizer.next(), None);
    assert_eq!(tokenizer.next(), None);
}

#[test]
fn unterminated_emphasis_is_spoken() {
    assert_eq!(
        tokenize("hi _there"),
        vec![Token::Normal("hi"), Token::Emphasised("there")]
    );
}

#[test]
fn pause_durations_by_count() {
    assert_eq!(PauseDuration::from(0, 0), None);
    assert_eq!(PauseDuration::from(0, 1), None);
    assert_eq!(PauseDuration::from(0, 2), Some(PauseDuration::Paragraph));
    assert_eq!(PauseDuration::from(1, 0), Some(PauseDuration::Sentence));
    assert_eq!(PauseDuration::from(1, 1), Some(PauseDuration::Sentence));
    assert_eq!(PauseDuration::from(1, 2), Some(PauseDuration::Paragraph));
    assert_eq!(PauseDuration::from(2, 0), Some(PauseDuration::Paragraph));
    assert_eq!(PauseDuration::from(2, 5), Some(PauseDuration::Paragraph));
    assert_eq!(PauseDuration::from(3, 0), Some(PauseDuration::Seconds(1)));
    assert_eq!(PauseDuration::from(3, 4), Some(PauseDuration::Seconds(1)));
    assert_eq!(PauseDuration::from(12, 0), Some(PauseDuration::Seconds(10)));
}

#[test]
fn pauses_in_a_text() {
    assert_eq!(tokenize("."), vec![Token::Pause(PauseDuration::Sentence)]);
    assert_eq!(tokenize("a\nb"), vec![Token::Normal("a"), Token::Normal("b")]);
    assert_eq!(
        tokenize("a\n\nb"),
        vec![
            Token::Normal("a"),
            Token::Pause(PauseDuration::Paragraph),
            Token::Normal("b")
        ]
    );
    assert_eq!(
        tokenize("a . . . . b"),
        vec![
            Token::Normal("a"),
            Token::Pause(PauseDuration::Seconds(2)),
            Token::Normal("b")
        ]
    );
    assert_eq!(
        tokenize("a ..  "),
        vec![Token::Normal("a"), Token::Pause(PauseDuration::Paragraph)]
    );
}

#[test]
fn underscores_are_never_spoken() {
    assert_eq!(tokenize("_"), vec![]);
    assert_eq!(tokenize("____"), vec![]);
    assert_eq!(tokenize("_ _"), vec![]);
    assert_eq!(tokenize("_a__b_"), vec![Token::Emphasised("a"), Token::Emphasised("b")]);
    assert_eq!(
        tokenize("a _ b _ c"),
        vec![Token::Normal("a"), Token::Emphasised("b"), Token::Normal("c")]
    );
    assert_eq!(
        tokenize("a_."),
        vec![Token::Normal("a"), Token::Pause(PauseDuration::Sentence)]
    );
}

#[test]
fn white_space_inside_text_stays() {
    assert_eq!(tokenize("  hello   world  "), vec![Token::Normal("hello   world")]);
    assert_eq!(
        tokenize("gr\u{fc}\u{df} dich\u{2003}Welt\u{a0}. \u{1f600} ok"),
        vec![
            Token::Normal("gr\u{fc}\u{df} dich\u{2003}Welt"),
            Token::Pause(PauseDuration::Sentence),
            Token::Normal("\u{1f600} ok")
        ]
    );
}

#[test]
fn tokens_say_the_text_without_marks() {
    let text = "  One, two _three_ .. four\n\nfive _six. seven_ ";
    let mut said = String::new();
    for token in tokenize(text) {
        match token {
            Token::Normal(part) | Token::Emphasised(part) => said.push_str(part),
            Token::Pause(_) => {}
        }
    }
    assert_eq!(said, "One, twothreefourfivesixseven");
}

#[test]
fn style_flips() {
    assert_eq!(Style::Unemphasised.flip(), Style::Emphasised);
    assert_eq!(Style::Emphasised.flip(), Style::Unemphasised);
}

#[test]
fn collect_gives_what_is_left() {
    let mut tokenizer = Tokenizer::new("a. b");
    assert_eq!(tokenizer.next(), Some(Token::Normal("a")));
    assert_eq!(
        tokenizer.collect(),
        vec![Token::Pause(PauseDuration::Sentence), Token::Normal("b")]
    );
}
