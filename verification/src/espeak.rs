//! Speech synthesis with the `espeak` command line tool, which takes SSML
//! on its standard input.

use crate::markup::{Marks, Markup};
use crate::token::tokens_of;
use vstd::prelude::*;

verus! {

/// A voice that speaks through `espeak`.
#[derive(Debug)]
pub struct Espeak;

/// What can go wrong with `espeak`.
#[derive(Debug)]
pub enum Error {
    /// No `espeak` on the path.
    EspeakNotInstalled(crate::version::Error),
    /// `espeak` could not be started.
    CannotInvoke { cause: std::io::Error },
    /// The pipe to `espeak` could not be opened.
    CannotOpenPipe,
    /// The pipe to `espeak` could not be written.
    CannotWrite { cause: std::io::Error },
}

impl Error {
    pub fn espeak_not_installed(cause: crate::version::Error) -> (error: Error)
        ensures
            error == Error::EspeakNotInstalled(cause),
    {
        Error::EspeakNotInstalled(cause)
    }

    pub fn cannot_invoke(cause: std::io::Error) -> (error: Error)
        ensures
            error == (Error::CannotInvoke { cause }),
    {
        Error::CannotInvoke { cause }
    }

    pub fn cannot_open_pipe() -> (error: Error)
        ensures
            error == Error::CannotOpenPipe,
    {
        Error::CannotOpenPipe
    }

    pub fn cannot_write(cause: std::io::Error) -> (error: Error)
        ensures
            error == (Error::CannotWrite { cause }),
    {
        Error::CannotWrite { cause }
    }
}

/// The words of SSML as `espeak` reads it. A line break closes the text.
pub open spec fn ssml() -> Marks {
    Marks {
        open: "<speak>"@,
        close: "</speak>\n"@,
        emphasis_open: "<emphasis>"@,
        emphasis_close: "</emphasis>"@,
        sentence: "<break strength=\"medium\"/>"@,
        paragraph: "<break strength=\"x-strong\"/>"@,
        seconds_open: "<break time=\""@,
        seconds_close: "s\"/>"@,
    }
}

/// The arguments of `espeak`: `-m` to have it read markup, and `-w` with a
/// path to have it write a WAV file there in place of speaking.
pub open spec fn arguments_for(output_wav_path: Option<Seq<char>>) -> Seq<Seq<char>> {
    match output_wav_path {
        Some(path) => seq!["-m"@, "-w"@, path],
        None => seq!["-m"@],
    }
}

impl Espeak {
    /// The voice, if the trial run of `espeak` found it.
    pub fn new(detected: Result<String, crate::version::Error>) -> (voice: Result<Espeak, Error>)
        ensures
            voice == match detected {
                Ok(_) => Ok::<Espeak, Error>(Espeak),
                Err(cause) => Err::<Espeak, Error>(Error::EspeakNotInstalled(cause)),
            },
    {
        match detected {
            Ok(_) => Ok(Espeak),
            Err(cause) => Err(Error::espeak_not_installed(cause)),
        }
    }

    /// The name of the program to start.
    pub fn program(&self) -> (name: &'static str)
        ensures
            name@ == "espeak"@,
    {
        "espeak"
    }

    /// The arguments to start `espeak` with.
    pub fn arguments(&self, output_wav_path: Option<&str>) -> (arguments: Vec<String>)
        ensures
            arguments.deep_view() == arguments_for(
                match output_wav_path {
                    Some(path) => Some(path@),
                    None => None,
                },
            ),
    {
        let mut arguments: Vec<String> = Vec::new();
        arguments.push("-m".to_owned());
        if let Some(path) = output_wav_path {
            arguments.push("-w".to_owned());
            arguments.push(path.to_owned());
            assert(arguments.deep_view() =~= seq!["-m"@, "-w"@, path@]);
        } else {
            assert(arguments.deep_view() =~= seq!["-m"@]);
        }
        arguments
    }

    fn markup() -> (markup: Markup)
        ensures
            markup@ == ssml(),
    {
        Markup {
            open: "<speak>",
            close: "</speak>\n",
            emphasis_open: "<emphasis>",
            emphasis_close: "</emphasis>",
            sentence: "<break strength=\"medium\"/>",
            paragraph: "<break strength=\"x-strong\"/>",
            seconds_open: "<break time=\"",
            seconds_close: "s\"/>",
        }
    }

    /// What is written to the pipe of `espeak` to have `raw_text` spoken.
    pub fn write_ssml(&self, raw_text: &str) -> (written: String)
        ensures
            written@ == ssml().written(tokens_of(raw_text@)),
    {
        Espeak::markup().write(raw_text)
    }
}

} // verus!
