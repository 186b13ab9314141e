//! A voice, a speech and an error of any of the synthesizers at hand.

use crate::child::{Action, Cancellation, Polled, Speech, State};
use crate::cscript::CScriptVoice;
use crate::espeak::Espeak;
use crate::say::Say;
use vstd::prelude::*;
use vstd::std_specs::convert::FromSpecImpl;

verus! {

/// A voice that works with any of the synthesizers.
#[derive(Debug)]
pub enum AnyVoice {
    CScript(CScriptVoice),
    Espeak(Espeak),
    Say(Say),
}

/// A speech of any of the synthesizers.
#[derive(Debug)]
pub enum AnySpeech {
    CScript(Speech),
    Espeak(Speech),
    Say(Speech),
}

/// An error of any of the synthesizers, or of the process of a speech.
#[derive(Debug)]
pub enum AnyError {
    CScript(crate::cscript::Error),
    Espeak(crate::espeak::Error),
    Say(crate::say::Error),
    Child(crate::child::Error),
}

impl From<crate::cscript::Error> for AnyError {
    fn from(error: crate::cscript::Error) -> (any: AnyError) {
        AnyError::CScript(error)
    }
}

impl FromSpecImpl<crate::cscript::Error> for AnyError {
    open spec fn obeys_from_spec() -> bool {
        true
    }

    open spec fn from_spec(error: crate::cscript::Error) -> AnyError {
        AnyError::CScript(error)
    }
}

impl From<crate::espeak::Error> for AnyError {
    fn from(error: crate::espeak::Error) -> (any: AnyError) {
        AnyError::Espeak(error)
    }
}

impl FromSpecImpl<crate::espeak::Error> for AnyError {
    open spec fn obeys_from_spec() -> bool {
        true
    }

    open spec fn from_spec(error: crate::espeak::Error) -> AnyError {
        AnyError::Espeak(error)
    }
}

impl From<crate::say::Error> for AnyError {
    fn from(error: crate::say::Error) -> (any: AnyError) {
        AnyError::Say(error)
    }
}

impl FromSpecImpl<crate::say::Error> for AnyError {
    open spec fn obeys_from_spec() -> bool {
        true
    }

    open spec fn from_spec(error: crate::say::Error) -> AnyError {
        AnyError::Say(error)
    }
}

impl From<crate::child::Error> for AnyError {
    fn from(error: crate::child::Error) -> (any: AnyError) {
        AnyError::Child(error)
    }
}

impl FromSpecImpl<crate::child::Error> for AnyError {
    open spec fn obeys_from_spec() -> bool {
        true
    }

    open spec fn from_spec(error: crate::child::Error) -> AnyError {
        AnyError::Child(error)
    }
}

impl From<CScriptVoice> for AnyVoice {
    fn from(cscript: CScriptVoice) -> (voice: AnyVoice) {
        AnyVoice::CScript(cscript)
    }
}

impl FromSpecImpl<CScriptVoice> for AnyVoice {
    open spec fn obeys_from_spec() -> bool {
        true
    }

    open spec fn from_spec(cscript: CScriptVoice) -> AnyVoice {
        AnyVoice::CScript(cscript)
    }
}

impl From<Espeak> for AnyVoice {
    fn from(espeak: Espeak) -> (voice: AnyVoice) {
        AnyVoice::Espeak(espeak)
    }
}

impl FromSpecImpl<Espeak> for AnyVoice {
    open spec fn obeys_from_spec() -> bool {
        true
    }

    open spec fn from_spec(espeak: Espeak) -> AnyVoice {
        AnyVoice::Espeak(espeak)
    }
}

impl From<Say> for AnyVoice {
    fn from(say: Say) -> (voice: AnyVoice) {
        AnyVoice::Say(say)
    }
}

impl FromSpecImpl<Say> for AnyVoice {
    open spec fn obeys_from_spec() -> bool {
        true
    }

    open spec fn from_spec(say: Say) -> AnyVoice {
        AnyVoice::Say(say)
    }
}

/// A result of the process of a speech, as a result of any synthesizer.
pub open spec fn any_result<T>(result: Result<T, crate::child::Error>) -> Result<T, AnyError> {
    match result {
        Ok(value) => Ok(value),
        Err(error) => Err(AnyError::Child(error)),
    }
}

/// What a caller is to do next, with an error of the process of a speech
/// made an error of any synthesizer.
#[derive(Debug)]
pub enum AnyAction {
    /// Send the termination signal, then ask the process again.
    Signal,
    /// Sleep that many milliseconds, then ask the process again.
    Sleep(u64),
    /// Return this to the caller.
    Return(Result<(), AnyError>),
}

/// `action`, with its error made an error of any synthesizer.
pub open spec fn any_action(action: Action) -> AnyAction {
    match action {
        Action::Signal => AnyAction::Signal,
        Action::Sleep(ms) => AnyAction::Sleep(ms),
        Action::Return(result) => AnyAction::Return(any_result(result)),
    }
}

impl AnyAction {
    fn of(action: Action) -> (any: AnyAction)
        ensures
            any == any_action(action),
    {
        match action {
            Action::Signal => AnyAction::Signal,
            Action::Sleep(ms) => AnyAction::Sleep(ms),
            Action::Return(Ok(())) => AnyAction::Return(Ok(())),
            Action::Return(Err(error)) => AnyAction::Return(Err(AnyError::from(error))),
        }
    }
}

impl View for AnySpeech {
    type V = State;

    /// Where the speech stands, whichever synthesizer speaks it.
    open spec fn view(&self) -> State {
        match self {
            AnySpeech::CScript(speech) => speech@,
            AnySpeech::Espeak(speech) => speech@,
            AnySpeech::Say(speech) => speech@,
        }
    }
}

impl AnySpeech {
    /// Whether `self` and `other` are speeches of the same synthesizer.
    pub open spec fn same_backend(self, other: AnySpeech) -> bool {
        match (self, other) {
            (AnySpeech::CScript(_), AnySpeech::CScript(_)) => true,
            (AnySpeech::Espeak(_), AnySpeech::Espeak(_)) => true,
            (AnySpeech::Say(_), AnySpeech::Say(_)) => true,
            _ => false,
        }
    }

    /// One check of a caller that waits for the speech to be over.
    pub fn await_done(&mut self, polled: Polled) -> (action: AnyAction)
        ensures
            action == any_action(State::await_action(old(self)@.observation(polled))),
            final(self)@ == old(self)@.observed(polled),
            final(self).same_backend(*old(self)),
    {
        let action = match self {
            AnySpeech::CScript(speech) => speech.await_done(polled),
            AnySpeech::Espeak(speech) => speech.await_done(polled),
            AnySpeech::Say(speech) => speech.await_done(polled),
        };
        AnyAction::of(action)
    }

    /// Whether the speech is over, for a process that gave `polled`.
    pub fn is_done(&mut self, polled: Polled) -> (result: Result<bool, AnyError>)
        ensures
            result == any_result(old(self)@.observation(polled)),
            final(self)@ == old(self)@.observed(polled),
            final(self).same_backend(*old(self)),
    {
        let result = match self {
            AnySpeech::CScript(speech) => speech.is_done(polled),
            AnySpeech::Espeak(speech) => speech.is_done(polled),
            AnySpeech::Say(speech) => speech.is_done(polled),
        };
        match result {
            Ok(done) => Ok(done),
            Err(error) => Err(AnyError::from(error)),
        }
    }

    /// One step of a caller that cancels the speech.
    pub fn cancel(&mut self, round: &mut Cancellation, polled: Polled) -> (action: AnyAction)
        ensures
            action == any_action(old(self)@.cancel_action(old(round)@, polled)),
            final(self)@ == old(self)@.cancel_state(polled),
            final(round)@ == old(self)@.cancel_round(old(round)@, polled),
            final(self).same_backend(*old(self)),
    {
        let action = match self {
            AnySpeech::CScript(speech) => speech.cancel(round, polled),
            AnySpeech::Espeak(speech) => speech.cancel(round, polled),
            AnySpeech::Say(speech) => speech.cancel(round, polled),
        };
        AnyAction::of(action)
    }
}

/// What a voice needs to know of where its speech goes: nowhere but the
/// loudspeaker, or to a WAV file at a path.
pub open spec fn path_view(path: Option<&str>) -> Option<Seq<char>> {
    match path {
        Some(path) => Some(path@),
        None => None,
    }
}

impl AnyVoice {
    /// The name of the program that speaks for this voice.
    pub fn program(&self) -> (name: &'static str)
        ensures
            name@ == match self {
                AnyVoice::CScript(_) => "cscript"@,
                AnyVoice::Espeak(_) => "espeak"@,
                AnyVoice::Say(_) => "say"@,
            },
    {
        match self {
            AnyVoice::CScript(voice) => voice.program(),
            AnyVoice::Espeak(voice) => voice.program(),
            AnyVoice::Say(voice) => voice.program(),
        }
    }

    /// The arguments to start the program with, to speak aloud or to write
    /// the WAV file `wav_file_path`. `cscript` is told of the file on its
    /// pipe, not by an argument.
    pub fn arguments(&self, wav_file_path: Option<&str>) -> (arguments: Vec<String>)
        ensures
            arguments.deep_view() == match self {
                AnyVoice::CScript(voice) => seq!["//U"@, voice.path()],
                AnyVoice::Espeak(_) => crate::espeak::arguments_for(path_view(wav_file_path)),
                AnyVoice::Say(_) => crate::say::arguments_for(path_view(wav_file_path)),
            },
    {
        match self {
            AnyVoice::CScript(voice) => voice.arguments(),
            AnyVoice::Espeak(voice) => voice.arguments(wav_file_path),
            AnyVoice::Say(voice) => voice.arguments(wav_file_path),
        }
    }

    /// The bytes to write to the pipe of the program to have `sentence`
    /// spoken, or written to the WAV file `wav_file_path`: markup in UTF-8
    /// for `espeak` and `say`, in UTF-16 for `cscript`.
    pub fn write_input(&self, sentence: &str, wav_file_path: Option<&str>) -> (written: Vec<u8>)
        ensures
            written@ == match self {
                AnyVoice::CScript(_) => crate::cscript::wide(
                    crate::cscript::script_input(sentence@, path_view(wav_file_path)),
                ),
                AnyVoice::Espeak(_) => vstd::utf8::encode_utf8(
                    crate::espeak::ssml().written(crate::token::tokens_of(sentence@)),
                ),
                AnyVoice::Say(_) => vstd::utf8::encode_utf8(
                    crate::say::say_markup().written(crate::token::tokens_of(sentence@)),
                ),
            },
    {
        match self {
            AnyVoice::CScript(voice) => voice.invoke_csript(sentence, wav_file_path),
            AnyVoice::Espeak(voice) => voice.write_ssml(sentence).as_str().as_bytes_vec(),
            AnyVoice::Say(voice) => voice.write_say_markup(sentence).as_str().as_bytes_vec(),
        }
    }
}

} // verus!
