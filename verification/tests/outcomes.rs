use jcode_kit::browser::{should_prompt_extension_install, BrowserStatus};
use jcode_kit::pdf::{extract_text, panic_message, ExtractError, PanicPayload, ParserOutcome};

#[test]
fn test_should_prompt_extension_install_prompts_before_setup_complete() {
    let incomplete = BrowserStatus {
        backend: "firefox_agent_bridge",
        browser: "firefox",
        setup_complete: false,
        binary_installed: true,
        responding: false,
        compatible: false,
        missing_actions: vec![],
        ready: false,
    };
    assert!(should_prompt_extension_install(&incomplete));

    // Before the marker is written we always prompt, even if the bridge already happens to
    // respond: the setup flow itself decides not to reopen the installer when it sees a live
    // connection, and marks setup complete.
    let responding_first_run = BrowserStatus { responding: true, ..incomplete.clone() };
    assert!(should_prompt_extension_install(&responding_first_run));
}

/// A stale setup marker must not permanently suppress the extension installer. If setup previously
/// completed but the bridge is now unresponsive with the binary still installed, setup must
/// re-prompt so it can recover.
#[test]
fn stale_setup_marker_still_prompts_when_bridge_is_not_responding() {
    let stale_marker_but_dead_bridge = BrowserStatus {
        backend: "firefox_agent_bridge",
        browser: "firefox",
        setup_complete: true,
        binary_installed: true,
        responding: false,
        compatible: false,
        missing_actions: vec![],
        ready: false,
    };
    assert!(should_prompt_extension_install(&stale_marker_but_dead_bridge));

    // A healthy, responding bridge must stay inert: no phantom reinstall prompts.
    let healthy = BrowserStatus {
        responding: true,
        compatible: true,
        ready: true,
        ..stale_marker_but_dead_bridge.clone()
    };
    assert!(!should_prompt_extension_install(&healthy));

    // Without the binary there is nothing to (re)connect to, so the stale-marker recovery path must
    // not fire either.
    let no_binary = BrowserStatus { binary_installed: false, ..stale_marker_but_dead_bridge };
    assert!(!should_prompt_extension_install(&no_binary));
}

#[test]
fn parser_results_pass_through() {
    let found: ParserOutcome<u32> = ParserOutcome::Returned(Ok("page one".to_string()));
    assert_eq!(extract_text(found).unwrap(), "page one");
    let failed: ParserOutcome<u32> = ParserOutcome::Returned(Err(7));
    assert!(matches!(extract_text(failed), Err(ExtractError::Parser(7))));
}

#[test]
fn parser_panic_becomes_an_error() {
    let report = |plain: Option<&str>, formatted: Option<&str>| {
        let payload = PanicPayload {
            plain: plain.map(str::to_string),
            formatted: formatted.map(str::to_string),
        };
        let outcome: ParserOutcome<u32> = ParserOutcome::Panicked(payload);
        match extract_text(outcome) {
            Err(ExtractError::Panic(report)) => report,
            other => panic!("expected a panic report, got {other:?}"),
        }
    };
    assert_eq!(
        report(Some("unexpected entry in unicode map"), None),
        "PDF text extraction failed (parser panic: unexpected entry in unicode map). The file may \
         be malformed or use unsupported encoding."
    );
    assert_eq!(
        report(None, Some("bad object 7")),
        "PDF text extraction failed (parser panic: bad object 7). The file may be malformed or use \
         unsupported encoding."
    );
    assert_eq!(
        report(None, None),
        "PDF text extraction failed (parser panic: unknown panic). The file may be malformed or \
         use unsupported encoding."
    );
    assert_eq!(
        panic_message(PanicPayload {
            plain: Some("plain".to_string()),
            formatted: Some("formatted".to_string()),
        }),
        "PDF text extraction failed (parser panic: plain). The file may be malformed or use \
         unsupported encoding."
    );
}
