//! What the command line asks for.

use vstd::prelude::*;
use vstd::string::*;

verus! {

/// `words` with one space between each two of them.
pub open spec fn joined(words: Seq<Seq<char>>) -> Seq<char>
    decreases words.len(),
{
    if words.len() == 0 {
        Seq::empty()
    } else if words.len() == 1 {
        words[0]
    } else {
        joined(words.drop_last()) + seq![' '] + words.last()
    }
}

/// The views of `words`, one by one.
pub open spec fn words_of<'a>(words: Seq<&'a str>) -> Seq<Seq<char>> {
    words.map_values(|word: &'a str| word@)
}

/// Puts the words of the command line together to one text, with a space
/// between each two.
pub fn join<'a>(words: &Vec<&'a str>) -> (text: String)
    ensures
        text@ == joined(words_of(words@)),
{
    let mut text = String::new();
    let mut i: usize = 0;
    proof {
        reveal_strlit(" ");
        assert(words_of(words@).take(0) =~= Seq::empty());
    }
    while i < words.len()
        invariant
            i <= words.len(),
            " "@ == seq![' '],
            text@ == joined(words_of(words@).take(i as int)),
        decreases words.len() - i,
    {
        if i > 0 {
            text.append(" ");
        }
        text.append(words[i]);
        proof {
            let all = words_of(words@);
            assert(all.take(i + 1).drop_last() =~= all.take(i as int));
            assert(all.take(i + 1).last() == words@[i as int]@);
            if i == 0 {
                assert(text@ =~= all.take(1)[0]);
            }
        }
        i += 1;
    }
    assert(words_of(words@).take(i as int) =~= words_of(words@));
    text
}

/// What to speak, and where to.
#[derive(Debug, PartialEq, Eq)]
pub enum Request {
    /// Speak each line of the standard input aloud, one after the other.
    SpeakLines,
    /// Read all of the standard input and speak it to the WAV file at
    /// `path`.
    SpeakInputToFile { path: String },
    /// Speak `text` aloud.
    Speak { text: String },
    /// Speak `text` to the WAV file at `path`.
    SpeakToFile { text: String, path: String },
}

/// Neither the standard input nor a word of the command line was given to
/// speak.
#[derive(Debug, PartialEq, Eq, Clone, Copy)]
pub struct NothingToSpeak;

impl NothingToSpeak {
    /// The error in words.
    pub fn message(&self) -> (message: &'static str)
        ensures
            message@ == "No command line arguments for speech specified"@,
    {
        "No command line arguments for speech specified"
    }
}

/// What a command line asks for: `stdin` tells whether the text comes from
/// the standard input, `file` names the WAV file to write in place of
/// speaking aloud, and `input` holds the words to speak, if there are any.
/// With `stdin` the words do not count.
pub fn request<'a>(stdin: bool, file: Option<String>, input: Option<Vec<&'a str>>) -> (asked:
    Result<Request, NothingToSpeak>)
    ensures
        match (stdin, file, input) {
            (true, Some(path), _) => asked == Ok::<Request, NothingToSpeak>(
                Request::SpeakInputToFile { path },
            ),
            (true, None, _) => asked == Ok::<Request, NothingToSpeak>(Request::SpeakLines),
            (false, _, None) => asked == Err::<Request, NothingToSpeak>(NothingToSpeak),
            (false, Some(path), Some(words)) => asked matches Ok(
                Request::SpeakToFile { text, path: to },
            ) && to == path && text@ == joined(words_of(words@)),
            (false, None, Some(words)) => asked matches Ok(Request::Speak { text }) && text@
                == joined(words_of(words@)),
        },
{
    if stdin {
        match file {
            Some(path) => Ok(Request::SpeakInputToFile { path }),
            None => Ok(Request::SpeakLines),
        }
    } else {
        match input {
            None => Err(NothingToSpeak),
            Some(words) => {
                let text = join(&words);
                match file {
                    Some(path) => Ok(Request::SpeakToFile { text, path }),
                    None => Ok(Request::Speak { text }),
                }
            },
        }
    }
}

} // verus!
