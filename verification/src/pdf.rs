//! Text extraction from PDF files.
//!
//! The PDF parser panics on malformed or exotic files. The caller contains such a panic and hands
//! its payload over as part of the parser's outcome, so that a bad PDF surfaces as an ordinary error
//! and cannot take down the calling tool task.

use vstd::prelude::*;

verus! {

/// What a contained panic carried: a text in one of the two types that `panic!` gives it, or
/// neither.
#[derive(Debug)]
pub struct PanicPayload {
    /// The payload as a `&str`, which a plain message is.
    pub plain: Option<String>,
    /// The payload as a `String`, which a formatted message is.
    pub formatted: Option<String>,
}

/// How the parser came back.
#[derive(Debug)]
pub enum ParserOutcome<E> {
    /// It returned.
    Returned(Result<String, E>),
    /// It panicked.
    Panicked(PanicPayload),
}

/// Why there is no text.
#[derive(Debug)]
pub enum ExtractError<E> {
    /// The parser's own error, passed through.
    Parser(E),
    /// What to say of a panic.
    Panic(String),
}

/// What the panic said.
pub open spec fn panic_text(payload: PanicPayload) -> Seq<char> {
    match payload.plain {
        Some(plain) => plain@,
        None => match payload.formatted {
            Some(formatted) => formatted@,
            None => "unknown panic"@,
        },
    }
}

/// What is said of a panic.
pub open spec fn panic_report(payload: PanicPayload) -> Seq<char> {
    "PDF text extraction failed (parser panic: "@ + panic_text(payload)
        + "). The file may be malformed or use unsupported encoding."@
}

/// A panic is reported in its own words, whichever of the two types carries them, between the two
/// halves of one sentence. The plain ones come first, and only without any is it an unknown panic.
pub proof fn law_panic_is_reported_in_its_own_words(payload: PanicPayload)
    ensures
        payload.plain matches Some(words) ==> panic_report(payload)
            == "PDF text extraction failed (parser panic: "@ + words@
            + "). The file may be malformed or use unsupported encoding."@,
        payload.plain is None ==> (payload.formatted matches Some(words) ==> panic_report(payload)
            == "PDF text extraction failed (parser panic: "@ + words@
            + "). The file may be malformed or use unsupported encoding."@),
        payload.plain is None && payload.formatted is None ==> panic_report(payload)
            == "PDF text extraction failed (parser panic: "@ + "unknown panic"@
            + "). The file may be malformed or use unsupported encoding."@,
{
}

/// The message of a contained panic.
pub fn panic_message(payload: PanicPayload) -> (message: String)
    ensures
        message@ == panic_report(payload),
{
    let text = match payload.plain {
        Some(plain) => plain,
        None => match payload.formatted {
            Some(formatted) => formatted,
            None => "unknown panic".to_owned(),
        },
    };
    let opening = "PDF text extraction failed (parser panic: ".to_owned();
    opening.concat(text.as_str()).concat(
        "). The file may be malformed or use unsupported encoding.",
    )
}

/// The text of a PDF, from the parser's outcome on it.
pub fn extract_text<E>(outcome: ParserOutcome<E>) -> (text: Result<String, ExtractError<E>>)
    ensures
        match outcome {
            ParserOutcome::Returned(Ok(found)) => text == Ok::<String, ExtractError<E>>(found),
            ParserOutcome::Returned(Err(error)) => text == Err::<String, ExtractError<E>>(
                ExtractError::Parser(error),
            ),
            ParserOutcome::Panicked(payload) => text matches Err(ExtractError::Panic(report))
                && report@ == panic_report(payload),
        },
{
    match outcome {
        ParserOutcome::Returned(Ok(found)) => Ok(found),
        ParserOutcome::Returned(Err(error)) => Err(ExtractError::Parser(error)),
        ParserOutcome::Panicked(payload) => Err(ExtractError::Panic(panic_message(payload))),
    }
}

} // verus!
