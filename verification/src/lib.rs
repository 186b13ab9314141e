//! Short texts, spoken by an external speech synthesizer.
//!
//! This library holds what is decided and computed on the way: how a text
//! falls into spoken parts, emphasised parts and pauses, how these are
//! written down for each synthesizer, and how the life of the process that
//! speaks is followed, awaited and cancelled. Starting, asking and ending
//! the process is left to the caller.

pub mod any;
pub mod child;
pub mod cli;
pub mod cscript;
pub mod espeak;
pub mod factory;
pub mod markup;
pub mod say;
pub mod spoken;
pub mod token;
pub mod version;

pub use crate::any::{AnyError, AnySpeech, AnyVoice};
pub use crate::child::Error as ChildError;
pub use crate::cscript::{CScriptVoice, Error as CScriptVoiceError};
pub use crate::espeak::{Error as EspeakError, Espeak};
pub use crate::factory::{any_voice, cscript_voice, espeak, say};
pub use crate::say::{Error as SayError, Say};
pub use crate::token::{tokenize, PauseDuration, Token, Tokenizer};
