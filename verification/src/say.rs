//! Speech synthesis with the `say` command line tool of Mac systems, which
//! takes text with embedded commands on its standard input.

use crate::markup::{Marks, Markup};
use crate::token::tokens_of;
use vstd::prelude::*;

verus! {

/// A voice that speaks through `say`.
#[derive(Debug)]
pub struct Say;

/// What can go wrong with `say`.
#[derive(Debug)]
pub enum Error {
    /// No `say` on the path.
    SayNotInstalled(crate::version::Error),
    /// `say` could not be started.
    CannotInvoke { cause: std::io::Error },
    /// The pipe to `say` could not be written.
    CannotWrite { cause: std::io::Error },
    /// The pipe to `say` could not be opened.
    CannotOpenPipe,
}

impl Error {
    pub fn say_not_installed(cause: crate::version::Error) -> (error: Error)
        ensures
            error == Error::SayNotInstalled(cause),
    {
        Error::SayNotInstalled(cause)
    }

    pub fn cannot_invoke(cause: std::io::Error) -> (error: Error)
        ensures
            error == (Error::CannotInvoke { cause }),
    {
        Error::CannotInvoke { cause }
    }

    pub fn cannot_write(cause: std::io::Error) -> (error: Error)
        ensures
            error == (Error::CannotWrite { cause }),
    {
        Error::CannotWrite { cause }
    }

    pub fn cannot_open_pipe() -> (error: Error)
        ensures
            error == Error::CannotOpenPipe,
    {
        Error::CannotOpenPipe
    }
}

/// The embedded commands of `say`. Silence is given in milliseconds, and a
/// line break closes the text.
pub open spec fn say_markup() -> Marks {
    Marks {
        open: ""@,
        close: "\n"@,
        emphasis_open: "[[emph +]]"@,
        emphasis_close: "[[emph -]]"@,
        sentence: "[[slnc 350]]"@,
        paragraph: "[[slnc 700]]"@,
        seconds_open: "[[slnc "@,
        seconds_close: "000]]"@,
    }
}

/// The arguments of `say`: none to speak aloud, a data format and `-o`
/// with a path to write an audio file there.
pub open spec fn arguments_for(output_file: Option<Seq<char>>) -> Seq<Seq<char>> {
    match output_file {
        Some(path) => seq!["--data-format=LEF32@22050"@, "-o"@, path],
        None => Seq::empty(),
    }
}

impl Say {
    /// The voice, if the trial run of `say` found it.
    pub fn new(detected: Result<String, crate::version::Error>) -> (voice: Result<Say, Error>)
        ensures
            voice == match detected {
                Ok(_) => Ok::<Say, Error>(Say),
                Err(cause) => Err::<Say, Error>(Error::SayNotInstalled(cause)),
            },
    {
        match detected {
            Ok(_) => Ok(Say),
            Err(cause) => Err(Error::say_not_installed(cause)),
        }
    }

    /// The name of the program to start.
    pub fn program(&self) -> (name: &'static str)
        ensures
            name@ == "say"@,
    {
        "say"
    }

    /// The arguments to start `say` with.
    pub fn arguments(&self, output_file: Option<&str>) -> (arguments: Vec<String>)
        ensures
            arguments.deep_view() == arguments_for(
                match output_file {
                    Some(path) => Some(path@),
                    None => None,
                },
            ),
    {
        let mut arguments: Vec<String> = Vec::new();
        if let Some(path) = output_file {
            arguments.push("--data-format=LEF32@22050".to_owned());
            arguments.push("-o".to_owned());
            arguments.push(path.to_owned());
            assert(arguments.deep_view() =~= seq!["--data-format=LEF32@22050"@, "-o"@, path@]);
        } else {
            assert(arguments.deep_view() =~= Seq::<Seq<char>>::empty());
        }
        arguments
    }

    fn markup() -> (markup: Markup)
        ensures
            markup@ == say_markup(),
    {
        Markup {
            open: "",
            close: "\n",
            emphasis_open: "[[emph +]]",
            emphasis_close: "[[emph -]]",
            sentence: "[[slnc 350]]",
            paragraph: "[[slnc 700]]",
            seconds_open: "[[slnc ",
            seconds_close: "000]]",
        }
    }

    /// What is written to the pipe of `say` to have `sentence` spoken.
    pub fn write_say_markup(&self, sentence: &str) -> (written: String)
        ensures
            written@ == say_markup().written(tokens_of(sentence@)),
    {
        Say::markup().write(sentence)
    }
}

} // verus!
