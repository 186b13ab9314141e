//! Whether a synthesizer is installed, judged by a trial run of it.

use crate::child::Exit;
use vstd::prelude::*;

verus! {

/// Why a synthesizer does not count as installed.
#[derive(Debug)]
pub enum Error {
    /// It could not be started.
    CannotRun { cause: std::io::Error },
    /// It ran and ended without success.
    Unsuccessful { status: Exit },
}

/// What a trial run of a synthesizer shows.
///
/// `ran` holds how the run ended and what it printed, or why it could not
/// be started. A run that ended with success shows that the synthesizer is
/// there, and what it printed is taken for its version.
pub fn detect_version(ran: Result<(Exit, String), std::io::Error>) -> (version: Result<
    String,
    Error,
>)
    ensures
        version == match ran {
            Ok((status, printed)) => if status.success {
                Ok::<String, Error>(printed)
            } else {
                Err::<String, Error>(Error::Unsuccessful { status })
            },
            Err(cause) => Err::<String, Error>(Error::CannotRun { cause }),
        },
{
    match ran {
        Ok((status, printed)) => {
            if status.success {
                Ok(printed)
            } else {
                Err(Error::Unsuccessful { status })
            }
        },
        Err(cause) => Err(Error::CannotRun { cause }),
    }
}

} // verus!
