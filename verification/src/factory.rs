//! Picking a voice among the synthesizers that are installed.

use crate::any::AnyVoice;
use crate::cscript::CScriptVoice;
use crate::espeak::Espeak;
use crate::say::Say;
use vstd::prelude::*;

verus! {

/// No synthesizer is installed.
#[derive(Debug, PartialEq, Eq, Clone, Copy)]
pub struct NoVoice;

impl NoVoice {
    /// The error in words.
    pub fn message(&self) -> (message: &'static str)
        ensures
            message@ == "No pre-installed voice found"@,
    {
        "No pre-installed voice found"
    }
}

/// The voice that `any_voice` picks: `espeak` first, the only one that
/// sounds the same everywhere, then `say`, then `cscript`.
pub open spec fn picked(
    espeak: Result<Espeak, crate::espeak::Error>,
    say: Result<Say, crate::say::Error>,
    cscript: Result<CScriptVoice, crate::cscript::Error>,
) -> Result<AnyVoice, NoVoice> {
    match (espeak, say, cscript) {
        (Ok(espeak), _, _) => Ok(AnyVoice::Espeak(espeak)),
        (Err(_), Ok(say), _) => Ok(AnyVoice::Say(say)),
        (Err(_), Err(_), Ok(cscript)) => Ok(AnyVoice::CScript(cscript)),
        (Err(_), Err(_), Err(_)) => Err(NoVoice),
    }
}

/// Picks a voice among those that were found.
pub fn any_voice(
    espeak: Result<Espeak, crate::espeak::Error>,
    say: Result<Say, crate::say::Error>,
    cscript: Result<CScriptVoice, crate::cscript::Error>,
) -> (voice: Result<AnyVoice, NoVoice>)
    ensures
        voice == picked(espeak, say, cscript),
{
    if let Ok(espeak) = espeak {
        return Ok(AnyVoice::Espeak(espeak));
    }
    if let Ok(say) = say {
        return Ok(AnyVoice::Say(say));
    }
    if let Ok(cscript) = cscript {
        return Ok(AnyVoice::CScript(cscript));
    }
    Err(NoVoice)
}

/// The `espeak` voice, if the trial run of `espeak` found it.
pub fn espeak(detected: Result<String, crate::version::Error>) -> (voice: Result<
    Espeak,
    crate::espeak::Error,
>)
    ensures
        voice == match detected {
            Ok(_) => Ok::<Espeak, crate::espeak::Error>(Espeak),
            Err(cause) => Err::<Espeak, crate::espeak::Error>(
                crate::espeak::Error::EspeakNotInstalled(cause),
            ),
        },
{
    Espeak::new(detected)
}

/// The `say` voice, if the trial run of `say` found it.
pub fn say(detected: Result<String, crate::version::Error>) -> (voice: Result<
    Say,
    crate::say::Error,
>)
    ensures
        voice == match detected {
            Ok(_) => Ok::<Say, crate::say::Error>(Say),
            Err(cause) => Err::<Say, crate::say::Error>(
                crate::say::Error::SayNotInstalled(cause),
            ),
        },
{
    Say::new(detected)
}

/// The `cscript` voice, if the trial run of `cscript` found it and its
/// script is in its place at `script_path`.
pub fn cscript_voice(
    detected: Result<String, crate::version::Error>,
    script_path: Result<String, std::io::Error>,
) -> (voice: Result<CScriptVoice, crate::cscript::Error>)
    ensures
        match (detected, script_path) {
            (Err(cause), _) => voice == Err::<CScriptVoice, crate::cscript::Error>(
                crate::cscript::Error::CscriptNotInstalled(cause),
            ),
            (Ok(_), Err(cause)) => voice == Err::<CScriptVoice, crate::cscript::Error>(
                crate::cscript::Error::CannotGenerateScript { cause },
            ),
            (Ok(_), Ok(path)) => voice matches Ok(voice) && voice.path() == path@,
        },
{
    CScriptVoice::new(detected, script_path)
}

} // verus!
