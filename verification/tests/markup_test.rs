use tavla::cscript::{char_bytes, format_sapi_xml, script_file_name, write_wide, CScriptVoice};
use tavla::espeak::Espeak;
use tavla::markup::{push_decimal, Markup};
use tavla::say::Say;
use tavla::token::{PauseDuration, Token};
use tavla::version::{detect_version, Error as VersionError};
use tavla::child::Exit;
use std::io::{Error as IoError, ErrorKind};

const PHRASE: &str = "One. Two.. Three... Four............ _five_\n\nsix";

fn found() -> Result<String, VersionError> {
    detect_version(Ok((Exit { success: true, code: Some(0) }, String::from("1.48.15"))))
}

fn missing() -> Result<String, VersionError> {
    detect_version(Err(IoError::new(ErrorKind::NotFound, "not found")))
}

#[test]
fn decimal_digits() {
    for n in [0u32, 1, 9, 10, 11, 99, 100, 101, 1234567890, u32::MAX] {
        let mut out = String::from("n=");
        push_decimal(&mut out, n);
        assert_eq!(out, format!("n={}", n));
    }
}

#[test]
fn ssml_for_espeak() {
    let espeak = Espeak::new(found()).unwrap();
    assert_eq!(
        espeak.write_ssml(PHRASE),
        "<speak>One<break strength=\"medium\"/>Two<break strength=\"x-strong\"/>Three\
         <break time=\"1s\"/>Four<break time=\"10s\"/><emphasis>five</emphasis>\
         <break strength=\"x-strong\"/>six</speak>\n"
    );
    assert_eq!(espeak.write_ssml(""), "<speak></speak>\n");
    assert_eq!(espeak.write_ssml("a <b> & c"), "<speak>a <b> & c</speak>\n");
}

#[test]
fn markup_for_say() {
    let say = Say::new(found()).unwrap();
    assert_eq!(
        say.write_say_markup(PHRASE),
        "One[[slnc 350]]Two[[slnc 700]]Three[[slnc 1000]]Four[[slnc 10000]]\
         [[emph +]]five[[emph -]][[slnc 700]]six\n"
    );
    assert_eq!(say.write_say_markup("  "), "\n");
}

#[test]
fn xml_for_sapi() {
    assert_eq!(
        format_sapi_xml(PHRASE),
        "<sapi>One<silence msec=\"350\" />Two<silence msec=\"700\" />Three\
         <silence msec=\"1000\" />Four<silence msec=\"10000\" /><emph>five</emph>\
         <silence msec=\"700\" />six</sapi>"
    );
    assert_eq!(format_sapi_xml(""), "<sapi></sapi>");
}

#[test]
fn a_markup_of_ones_own() {
    let markup = Markup {
        open: "(",
        close: ")",
        emphasis_open: "*",
        emphasis_close: "*",
        sentence: "|",
        paragraph: "||",
        seconds_open: "<",
        seconds_close: ">",
    };
    assert_eq!(markup.write("a _b_ . c .. d ....."), "(a*b*|c||d<3>)");
    let mut out = String::from("x");
    markup.push_token(&mut out, &Token::Pause(PauseDuration::Seconds(42)));
    markup.push_token(&mut out, &Token::Normal("y"));
    markup.push_token(&mut out, &Token::Emphasised("z"));
    markup.push_token(&mut out, &Token::Pause(PauseDuration::Sentence));
    markup.push_token(&mut out, &Token::Pause(PauseDuration::Paragraph));
    assert_eq!(out, "x<42>y*z*|||");
}

#[test]
fn arguments_of_the_programs() {
    let espeak = Espeak::new(found()).unwrap();
    assert_eq!(espeak.program(), "espeak");
    assert_eq!(espeak.arguments(None), vec!["-m"]);
    assert_eq!(espeak.arguments(Some("/tmp/test.wav")), vec!["-m", "-w", "/tmp/test.wav"]);

    let say = Say::new(found()).unwrap();
    assert_eq!(say.program(), "say");
    assert_eq!(say.arguments(None), Vec::<String>::new());
    assert_eq!(
        say.arguments(Some("out.wav")),
        vec!["--data-format=LEF32@22050", "-o", "out.wav"]
    );

    let cscript = CScriptVoice::new(found(), Ok(String::from("C:\\Temp\\say.vbs"))).unwrap();
    assert_eq!(cscript.program(), "cscript");
    assert_eq!(cscript.script_path(), "C:\\Temp\\say.vbs");
    assert_eq!(cscript.arguments(), vec!["//U", "C:\\Temp\\say.vbs"]);
}

#[test]
fn voices_that_are_not_installed() {
    assert!(matches!(
        Espeak::new(missing()),
        Err(tavla::espeak::Error::EspeakNotInstalled(VersionError::CannotRun { .. }))
    ));
    assert!(matches!(
        Say::new(missing()),
        Err(tavla::say::Error::SayNotInstalled(VersionError::CannotRun { .. }))
    ));
    assert!(matches!(
        CScriptVoice::new(missing(), Ok(String::from("say.vbs"))),
        Err(tavla::cscript::Error::CscriptNotInstalled(_))
    ));
    assert!(matches!(
        CScriptVoice::new(missing(), Err(IoError::new(ErrorKind::Other, "full"))),
        Err(tavla::cscript::Error::CscriptNotInstalled(_))
    ));
    assert!(matches!(
        CScriptVoice::new(found(), Err(IoError::new(ErrorKind::Other, "full"))),
        Err(tavla::cscript::Error::CannotGenerateScript { .. })
    ));
}

#[test]
fn trial_runs() {
    assert_eq!(found().unwrap(), "1.48.15");
    let status = Exit { success: false, code: Some(127) };
    match detect_version(Ok((status, String::from("sh: espeak: not found")))) {
        Err(VersionError::Unsuccessful { status: seen }) => assert_eq!(seen, status),
        other => panic!("expected an unsuccessful run, got {:?}", other),
    }
    assert!(matches!(missing(), Err(VersionError::CannotRun { .. })));
}

#[test]
fn errors_of_the_voices_by_name() {
    let io = || IoError::new(ErrorKind::BrokenPipe, "pipe");
    let version = || VersionError::CannotRun { cause: io() };
    assert!(matches!(
        tavla::espeak::Error::espeak_not_installed(version()),
        tavla::espeak::Error::EspeakNotInstalled(_)
    ));
    assert!(matches!(
        tavla::espeak::Error::cannot_invoke(io()),
        tavla::espeak::Error::CannotInvoke { .. }
    ));
    assert!(matches!(
        tavla::espeak::Error::cannot_open_pipe(),
        tavla::espeak::Error::CannotOpenPipe
    ));
    assert!(matches!(
        tavla::espeak::Error::cannot_write(io()),
        tavla::espeak::Error::CannotWrite { .. }
    ));
    assert!(matches!(
        tavla::say::Error::say_not_installed(version()),
        tavla::say::Error::SayNotInstalled(_)
    ));
    assert!(matches!(tavla::say::Error::cannot_invoke(io()), tavla::say::Error::CannotInvoke { .. }));
    assert!(matches!(tavla::say::Error::cannot_write(io()), tavla::say::Error::CannotWrite { .. }));
    assert!(matches!(tavla::say::Error::cannot_open_pipe(), tavla::say::Error::CannotOpenPipe));
    assert!(matches!(
        tavla::cscript::Error::cscript_not_installed(version()),
        tavla::cscript::Error::CscriptNotInstalled(_)
    ));
    assert!(matches!(
        tavla::cscript::Error::cannot_generate_script(io()),
        tavla::cscript::Error::CannotGenerateScript { .. }
    ));
    assert!(matches!(
        tavla::cscript::Error::cannot_invoke(io()),
        tavla::cscript::Error::CannotInvoke { .. }
    ));
    assert!(matches!(
        tavla::cscript::Error::cannot_write(io()),
        tavla::cscript::Error::CannotWrite { .. }
    ));
    assert!(matches!(
        tavla::cscript::Error::cannot_open_pipe(),
        tavla::cscript::Error::CannotOpenPipe
    ));
}

#[test]
fn bytes_of_a_unit() {
    assert_eq!(char_bytes(0x0061), [0x61, 0x00]);
    assert_eq!(char_bytes(0xd83d), [0x3d, 0xd8]);
    assert_eq!(char_bytes(0xffff), [0xff, 0xff]);
    assert_eq!(char_bytes(0x0100), [0x00, 0x01]);
}

#[test]
fn wide_text() {
    let mut out = vec![7u8];
    write_wide(&mut out, "a\u{e4}\u{20ac}\u{1f600}\u{10ffff}\u{ffff}\u{10000}");
    assert_eq!(
        out,
        vec![
            7, 0x61, 0x00, 0xe4, 0x00, 0xac, 0x20, 0x3d, 0xd8, 0x00, 0xde, 0xff, 0xdb, 0xff,
            0xdf, 0xff, 0xff, 0x00, 0xd8, 0x00, 0xdc
        ]
    );
    let text = "Gr\u{fc}\u{df}e \u{4e16}\u{754c} \u{1f30d}!";
    let mut wide = Vec::new();
    write_wide(&mut wide, text);
    let expected: Vec<u8> = text.encode_utf16().flat_map(|unit| unit.to_le_bytes()).collect();
    assert_eq!(wide, expected);
}

#[test]
fn what_cscript_reads() {
    let cscript = CScriptVoice::new(found(), Ok(String::from("say.vbs"))).unwrap();
    let wide = |text: &str| -> Vec<u8> {
        text.encode_utf16().flat_map(|unit| unit.to_le_bytes()).collect()
    };
    assert_eq!(
        cscript.invoke_csript("Hello _world_.", None),
        wide("<sapi>Hello<emph>world</emph><silence msec=\"350\" /></sapi>")
    );
    assert_eq!(
        cscript.invoke_csript("Hello", Some("C:\\out.wav")),
        wide("53377b5f-60a2-4c05-a4eb-55de35452a2b\r\nC:\\out.wav\r\n<sapi>Hello</sapi>")
    );
}

#[test]
fn the_name_of_the_script() {
    assert_eq!(script_file_name("0.2.1"), "0.2.1-say_lines_for_tavla_.vbs");
    assert_eq!(script_file_name(""), "-say_lines_for_tavla_.vbs");
}
