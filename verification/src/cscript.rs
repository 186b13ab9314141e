//! Speech synthesis on Windows, with `cscript` running a small script that
//! hands what it reads to the speech synthesis of the system.
//!
//! The script reads UTF-16, low byte first. A text to be spoken is SAPI
//! XML. To have an audio file written instead, a line with a mark known to
//! the script and a line with the path of the file go before it.

use crate::markup::{Marks, Markup};
use crate::token::tokens_of;
use vstd::prelude::*;
use vstd::std_specs::iter::IteratorSpec;
use vstd::string::*;

verus! {

/// A voice that speaks through `cscript`.
#[derive(Debug)]
pub struct CScriptVoice {
    script_path: String,
}

/// What can go wrong with `cscript`.
#[derive(Debug)]
pub enum Error {
    /// No `cscript` on the path.
    CscriptNotInstalled(crate::version::Error),
    /// The script for `cscript` could not be put in its place.
    CannotGenerateScript { cause: std::io::Error },
    /// `cscript` could not be started.
    CannotInvoke { cause: std::io::Error },
    /// The pipe to `cscript` could not be written.
    CannotWrite { cause: std::io::Error },
    /// The pipe to `cscript` could not be opened.
    CannotOpenPipe,
}

impl Error {
    pub fn cscript_not_installed(cause: crate::version::Error) -> (error: Error)
        ensures
            error == Error::CscriptNotInstalled(cause),
    {
        Error::CscriptNotInstalled(cause)
    }

    pub fn cannot_generate_script(cause: std::io::Error) -> (error: Error)
        ensures
            error == (Error::CannotGenerateScript { cause }),
    {
        Error::CannotGenerateScript { cause }
    }

    pub fn cannot_invoke(cause: std::io::Error) -> (error: Error)
        ensures
            error == (Error::CannotInvoke { cause }),
    {
        Error::CannotInvoke { cause }
    }

    pub fn cannot_write(cause: std::io::Error) -> (error: Error)
        ensures
            error == (Error::CannotWrite { cause }),
    {
        Error::CannotWrite { cause }
    }

    pub fn cannot_open_pipe() -> (error: Error)
        ensures
            error == Error::CannotOpenPipe,
    {
        Error::CannotOpenPipe
    }
}

/// The words of SAPI XML. Silence is given in milliseconds.
pub open spec fn sapi() -> Marks {
    Marks {
        open: "<sapi>"@,
        close: "</sapi>"@,
        emphasis_open: "<emph>"@,
        emphasis_close: "</emph>"@,
        sentence: "<silence msec=\"350\" />"@,
        paragraph: "<silence msec=\"700\" />"@,
        seconds_open: "<silence msec=\""@,
        seconds_close: "000\" />"@,
    }
}

/// The line that tells the script to write an audio file.
pub open spec fn write_file_mark() -> Seq<char> {
    "53377b5f-60a2-4c05-a4eb-55de35452a2b\r\n"@
}

/// The two bytes of a 16-bit unit, low byte first.
pub open spec fn unit_bytes(unit: u16) -> Seq<u8> {
    seq![(unit % 256) as u8, (unit / 256) as u8]
}

/// The bytes of `c` in UTF-16, low byte of each unit first: one unit for a
/// character of the basic plane, a pair of surrogates for any other.
pub open spec fn wide_char(c: char) -> Seq<u8> {
    let point = c as u32;
    if point < 0x1_0000 {
        unit_bytes(point as u16)
    } else {
        let offset = (point - 0x1_0000) as u32;
        unit_bytes((0xd800 + offset / 0x400) as u16) + unit_bytes((0xdc00 + offset % 0x400) as u16)
    }
}

/// The bytes of `text` in UTF-16, low byte of each unit first.
pub open spec fn wide(text: Seq<char>) -> Seq<u8>
    decreases text.len(),
{
    if text.len() == 0 {
        Seq::empty()
    } else {
        wide(text.drop_last()) + wide_char(text.last())
    }
}

/// What is written to the pipe of `cscript`, as characters: the markup
/// for `sentence`, and before it the two lines that name the audio file to
/// write, if there is one.
pub open spec fn script_input(sentence: Seq<char>, to_file: Option<Seq<char>>) -> Seq<char> {
    let xml = sapi().written(tokens_of(sentence));
    match to_file {
        Some(file) => write_file_mark() + file + "\r\n"@ + xml,
        None => xml,
    }
}

/// The two bytes of a 16-bit unit, low byte first.
pub fn char_bytes(code_point_16: u16) -> (bytes: [u8; 2])
    ensures
        bytes@ == unit_bytes(code_point_16),
{
    let lower_byte = (code_point_16 % 256) as u8;
    let upper_byte = (code_point_16 / 256) as u8;
    let bytes = [lower_byte, upper_byte];
    assert(bytes@ =~= unit_bytes(code_point_16));
    bytes
}

/// Appends the bytes of `c` in UTF-16 to `out`.
fn push_wide_char(out: &mut Vec<u8>, c: char)
    ensures
        final(out)@ == old(out)@ + wide_char(c),
{
    let point = c as u32;
    if point < 0x1_0000 {
        let bytes = char_bytes(point as u16);
        out.push(bytes[0]);
        out.push(bytes[1]);
        assert(final(out)@ =~= old(out)@ + wide_char(c));
    } else {
        let offset = point - 0x1_0000;
        let high = char_bytes((0xd800 + offset / 0x400) as u16);
        let low = char_bytes((0xdc00 + offset % 0x400) as u16);
        out.push(high[0]);
        out.push(high[1]);
        out.push(low[0]);
        out.push(low[1]);
        assert(final(out)@ =~= old(out)@ + wide_char(c));
    }
}

/// Appends the bytes of `data` in UTF-16 to `out`.
pub fn write_wide(out: &mut Vec<u8>, data: &str)
    ensures
        final(out)@ == old(out)@ + wide(data@),
{
    let mut chars = data.chars();
    let ghost mut read: int = 0;
    proof {
        broadcast use vstd::string::group_string_axioms;

        assert(data@.skip(0) =~= data@);
        assert(data@.take(0) =~= Seq::empty());
        assert(old(out)@ + wide(data@.take(0)) =~= old(out)@);
    }
    loop
        invariant
            0 <= read <= data@.len(),
            chars.remaining() == data@.skip(read),
            out@ == old(out)@ + wide(data@.take(read)),
        ensures
            read == data@.len(),
            out@ == old(out)@ + wide(data@.take(read)),
        decreases data@.len() - read,
    {
        proof {
            broadcast use vstd::string::group_string_axioms;

        }
        match chars.next() {
            None => {
                break ;
            },
            Some(c) => {
                push_wide_char(out, c);
                proof {
                    assert(data@.skip(read).drop_first() =~= data@.skip(read + 1));
                    assert(data@.take(read + 1).drop_last() =~= data@.take(read));
                    assert(out@ =~= old(out)@ + wide(data@.take(read + 1)));
                    read = read + 1;
                }
            },
        }
    }
    assert(data@.take(read) =~= data@);
}

/// The markup for `sentence` in SAPI XML.
pub fn format_sapi_xml(sentence: &str) -> (xml: String)
    ensures
        xml@ == sapi().written(tokens_of(sentence@)),
{
    let markup = Markup {
        open: "<sapi>",
        close: "</sapi>",
        emphasis_open: "<emph>",
        emphasis_close: "</emph>",
        sentence: "<silence msec=\"350\" />",
        paragraph: "<silence msec=\"700\" />",
        seconds_open: "<silence msec=\"",
        seconds_close: "000\" />",
    };
    markup.write(sentence)
}

/// The name of the file that holds the script of version `version` of
/// this library, so that two versions do not share one.
pub fn script_file_name(version: &str) -> (name: String)
    ensures
        name@ == version@ + "-"@ + "say_lines_for_tavla_.vbs"@,
{
    let mut name = version.to_owned();
    name.append("-");
    name.append("say_lines_for_tavla_.vbs");
    name
}

impl CScriptVoice {
    /// The path of the script that `cscript` runs.
    pub closed spec fn path(&self) -> Seq<char> {
        self.script_path@
    }

    /// The voice, if the trial run of `cscript` found it and the script is
    /// in its place at `script_path`. Whether the script is in its place
    /// matters only where `cscript` was found.
    pub fn new(
        detected: Result<String, crate::version::Error>,
        script_path: Result<String, std::io::Error>,
    ) -> (voice: Result<CScriptVoice, Error>)
        ensures
            match (detected, script_path) {
                (Err(cause), _) => voice == Err::<CScriptVoice, Error>(
                    Error::CscriptNotInstalled(cause),
                ),
                (Ok(_), Err(cause)) => voice == Err::<CScriptVoice, Error>(
                    Error::CannotGenerateScript { cause },
                ),
                (Ok(_), Ok(path)) => voice matches Ok(voice) && voice.path() == path@,
            },
    {
        match detected {
            Err(cause) => Err(Error::cscript_not_installed(cause)),
            Ok(_) => match script_path {
                Err(cause) => Err(Error::cannot_generate_script(cause)),
                Ok(script_path) => Ok(CScriptVoice { script_path }),
            },
        }
    }

    /// The path of the script that `cscript` runs.
    pub fn script_path(&self) -> (path: &str)
        ensures
            path@ == self.path(),
    {
        self.script_path.as_str()
    }

    /// The name of the program to start.
    pub fn program(&self) -> (name: &'static str)
        ensures
            name@ == "cscript"@,
    {
        "cscript"
    }

    /// The arguments to start `cscript` with: `//U` to have it read and
    /// write UTF-16, and the path of the script.
    pub fn arguments(&self) -> (arguments: Vec<String>)
        ensures
            arguments.deep_view() == seq!["//U"@, self.path()],
    {
        let mut arguments: Vec<String> = Vec::new();
        arguments.push("//U".to_owned());
        arguments.push(self.script_path.clone());
        assert(arguments.deep_view() =~= seq!["//U"@, self.path()]);
        arguments
    }

    /// What is written to the pipe of `cscript` to have `sentence` spoken,
    /// or written to the audio file `to_file`.
    pub fn invoke_csript(&self, sentence: &str, to_file: Option<&str>) -> (written: Vec<u8>)
        ensures
            written@ == wide(
                script_input(
                    sentence@,
                    match to_file {
                        Some(file) => Some(file@),
                        None => None,
                    },
                ),
            ),
    {
        let xml = format_sapi_xml(sentence);
        let mut written: Vec<u8> = Vec::new();
        assert(wide(Seq::<char>::empty()) =~= Seq::<u8>::empty());
        if let Some(file) = to_file {
            write_wide(&mut written, "53377b5f-60a2-4c05-a4eb-55de35452a2b\r\n");
            write_wide(&mut written, file);
            write_wide(&mut written, "\r\n");
            write_wide(&mut written, xml.as_str());
            proof {
                lemma_wide_of_two(write_file_mark(), file@);
                lemma_wide_of_two(write_file_mark() + file@, "\r\n"@);
                lemma_wide_of_two(write_file_mark() + file@ + "\r\n"@, xml@);
                assert(written@ =~= wide(write_file_mark() + file@ + "\r\n"@ + xml@));
            }
        } else {
            write_wide(&mut written, xml.as_str());
            assert(written@ =~= wide(xml@));
        }
        written
    }
}

/// The bytes of two texts, one after the other, are the bytes of the two
/// put together.
pub proof fn lemma_wide_of_two(first: Seq<char>, second: Seq<char>)
    ensures
        wide(first + second) == wide(first) + wide(second),
    decreases second.len(),
{
    if second.len() == 0 {
        assert(first + second =~= first);
        assert(wide(first) + wide(second) =~= wide(first));
    } else {
        lemma_wide_of_two(first, second.drop_last());
        assert((first + second).drop_last() =~= first + second.drop_last());
        assert((first + second).last() == second.last());
        assert(wide(first) + wide(second.drop_last()) + wide_char(second.last()) =~= wide(first)
            + wide(second));
    }
}

} // verus!
