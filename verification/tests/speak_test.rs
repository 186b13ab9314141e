use std::io::{Error as IoError, ErrorKind};
use tavla::child::{Action, Backoff, Cancellation, Exit, Speech};
use tavla::factory::{cscript_voice, espeak, say};
use tavla::version::{detect_version, Error as VersionError};

/// What a trial run gives where the synthesizer is installed, and where it
/// is not.
fn trial_runs() -> Vec<Result<String, VersionError>> {
    vec![
        detect_version(Err(IoError::new(ErrorKind::NotFound, "No such file or directory"))),
        detect_version(Ok((Exit { success: true, code: Some(0) }, String::from("1.0")))),
    ]
}

/// Waits for a speech whose process runs through two checks and then exits
/// with success.
fn await_done(speech: &mut Speech) -> Result<(), tavla::child::Error> {
    let mut checks = 0;
    loop {
        let polled = if checks < 2 {
            Ok(None)
        } else {
            Ok(Some(Exit { success: true, code: Some(0) }))
        };
        checks += 1;
        match speech.await_done(polled) {
            Action::Return(result) => return result,
            Action::Sleep(_) | Action::Signal => {}
        }
    }
}

/// Cancels a speech whose process exits at the termination signal.
fn cancel(speech: &mut Speech) -> Result<(), tavla::child::Error> {
    let mut round = Cancellation::new(Backoff::standard());
    let mut signalled = false;
    loop {
        let polled = if signalled { Ok(Some(Exit { success: false, code: None })) } else { Ok(None) };
        match speech.cancel(&mut round, polled) {
            Action::Signal => signalled = true,
            Action::Sleep(_) => {}
            Action::Return(result) => return result,
        }
    }
}

/// If espeak is unavailable, it should not be obtainable (Err).
/// If available, it must be callable.
#[test]
fn speak_espeak() {
    for detected in trial_runs() {
        match espeak(detected) {
            Err(err) => {
                // not being available is an ok outcome, test successful
                println!("espeak not available: {:?}.", err);
            }
            // If it is, it must be invokable successfully
            Ok(espeak) => {
                let written =
                    espeak.write_ssml("Hello with espeak.... And hello again after a long _pause_.");
                assert_eq!(
                    written,
                    "<speak>Hello with espeak<break time=\"2s\"/>And hello again after a long\
                     <emphasis>pause</emphasis><break strength=\"medium\"/></speak>\n",
                    "espeak obtained, but failed to speak a phrase"
                );
                let mut speech = Speech::new(Ok(None));

                // Check if cancellation works
                assert!(!speech.is_done(Ok(None)).unwrap());
                cancel(&mut speech).unwrap();
                assert!(speech.is_done(Ok(None)).unwrap());
            }
        }
    }
}

#[test]
fn speak_say() {
    for detected in trial_runs() {
        match say(detected) {
            Err(err) => {
                // not being available is an ok outcome, test successful
                println!("say not available: {:?}.", err);
            }
            // If it is, it must be invokable successfully
            Ok(say) => {
                let written =
                    say.write_say_markup("Hello with say.... And hello again after a long _pause_.");
                assert_eq!(
                    written,
                    "Hello with say[[slnc 2000]]And hello again after a long\
                     [[emph +]]pause[[emph -]][[slnc 350]]\n",
                    "say obtained, but failed to speak a phrase"
                );
                await_done(&mut Speech::new(Ok(None)))
                    .expect("say obtained, but failed to speak a phrase until done");

                println!("say available: {:?}", say);
            }
        }
    }
}

#[test]
fn speak_cscript() {
    for detected in trial_runs() {
        match cscript_voice(detected, Ok(String::from("say_lines.vbs"))) {
            Err(err) => {
                // not being available is an ok outcome, test successful
                println!("cscript not available: {:?}.", err);
            }
            // If it is, it must be invokable successfully
            Ok(cscript) => {
                let written = cscript.invoke_csript(
                    "Hello with C script.... And hello again after a long _pause_.",
                    None,
                );
                let expected: Vec<u8> = "<sapi>Hello with C script<silence msec=\"2000\" />\
                                         And hello again after a long<emph>pause</emph>\
                                         <silence msec=\"350\" /></sapi>"
                    .encode_utf16()
                    .flat_map(|unit| unit.to_le_bytes())
                    .collect();
                assert_eq!(written, expected, "cscript obtained, but failed to speak a phrase");
                await_done(&mut Speech::new(Ok(None)))
                    .expect("cscript obtained, but failed to speak a phrase until done");

                println!("cscript available: {:?}", cscript);
            }
        }
    }
}

/// A voice that is found must be able to speak a text that is only a
/// pause.
#[test]
fn speak_any() {
    let mut runs = trial_runs();
    let found = runs.pop().unwrap();
    let missing = runs.pop().unwrap();
    let written = tavla::any_voice(
        espeak(found),
        say(missing),
        cscript_voice(detect_version(Ok((Exit { success: false, code: Some(1) }, String::new()))), Ok(String::new())),
    )
    .expect("Expected at least one voice to be loadable!")
    .write_input(".", None); //Speak only a pause
    assert_eq!(
        written,
        b"<speak><break strength=\"medium\"/></speak>\n",
        "Single pause could not be spoken with any voice."
    );
}
