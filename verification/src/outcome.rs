//! How a run ends: what is printed, where, and with which exit code.
//!
//! A run is a straight line with three points at which it can end. At each
//! the caller reports what happened and is told to go on or how to exit.
//! Exactly one text reaches the user per run: a completion or a message. The
//! caller writes that text as it stands, adding nothing: a message brings its
//! own line break, a completion is what the service sent and no more.

use crate::chat::{request_of, Output, Request};
use crate::config::Config;
use crate::error::Error;
use crate::status::Status;
use vstd::prelude::*;

verus! {

/// The exit code of a run that printed a completion.
pub const SUCCESS: i32 = 0;

/// The exit code of every other run.
pub const FAILURE: i32 = 1;

/// Where the last words of a run go.
#[derive(Debug, Clone, Copy, PartialEq, Eq, Structural)]
pub enum Stream {
    /// Standard output
    Stdout,
    /// Standard error
    Stderr,
}

/// The end of a run: the text to write, to the last character, the stream
/// to write it to, and the code to exit with.
#[derive(Debug, PartialEq, Eq)]
pub struct Exit {
    pub code: i32,
    pub stream: Stream,
    pub text: String,
}

/// [`Exit`] as plain mathematical values.
pub ghost struct ExitView {
    pub code: i32,
    pub stream: Stream,
    pub text: Seq<char>,
}

impl View for Exit {
    type V = ExitView;

    open spec fn view(&self) -> ExitView {
        ExitView { code: self.code, stream: self.stream, text: self.text@ }
    }
}

/// A text as a line of its own: the text and a line break.
pub open spec fn line(text: Seq<char>) -> Seq<char> {
    text + seq!['\n']
}

/// How a run ends on an error: on the error's message as a line. An
/// unexpected status is shown on standard output, every other message on
/// standard error.
pub open spec fn failed(error: Error) -> ExitView {
    ExitView {
        code: FAILURE,
        stream: if error is UnexpectedStatus {
            Stream::Stdout
        } else {
            Stream::Stderr
        },
        text: line(error.text()),
    }
}

/// How a run ends on a completion: on its content and nothing after it.
pub open spec fn completed(content: Seq<char>) -> ExitView {
    ExitView { code: SUCCESS, stream: Stream::Stdout, text: content }
}

/// Ends a run on an error.
pub fn fail(error: Error) -> (exit: Exit)
    ensures
        exit@ == failed(error),
{
    let stream = match error {
        Error::UnexpectedStatus(_) => Stream::Stdout,
        _ => Stream::Stderr,
    };
    let mut text = error.to_string();
    proof {
        reveal_strlit("\n");
        assert("\n"@ == seq!['\n']);
    }
    text.append("\n");
    Exit { code: FAILURE, stream, text }
}

/// First point: the configuration was put together, or was not. With one
/// the run goes on to send its request; without, it ends.
pub fn on_config(config: Result<Config, Error>) -> (next: Result<Request, Exit>)
    ensures
        match next {
            Ok(request) => config matches Ok(c) && request@ == request_of(c@),
            Err(exit) => config matches Err(e) && exit@ == failed(e),
        },
{
    match config {
        Ok(config) => Ok(Request::new(config)),
        Err(error) => Err(fail(error)),
    }
}

/// Second point: the request was sent. `response` is the status of the
/// response together with whatever its body is read from, or nothing if there
/// was no response. Only on 200 does the run go on to read the body, and the
/// caller then gets back what to read it from; on any other status the body
/// is left alone.
pub fn on_response<R>(response: Option<(Status, R)>) -> (next: Result<R, Exit>)
    ensures
        match next {
            Ok(body) => response matches Some((s, r)) && s@ == Status::OK && body == r,
            Err(exit) => match response {
                None => exit@ == failed(Error::Transport),
                Some((s, _)) => s@ != Status::OK && exit@ == failed(Error::UnexpectedStatus(s)),
            },
        },
{
    match response {
        None => Err(fail(Error::Transport)),
        Some((status, body)) => if status.is_ok() {
            Ok(body)
        } else {
            Err(fail(Error::UnexpectedStatus(status)))
        },
    }
}

/// Third point: the body was read. `body` is the response it decoded to, or
/// nothing if it did not decode. The run ends either way: on the first
/// choice's content, as it is, or on a message. A body without a choice holds
/// no completion and ends the run as one that did not decode.
pub fn on_body(body: Option<Output>) -> (exit: Exit)
    ensures
        exit@ == match body {
            Some(output) => if output.choices@.len() > 0 {
                completed(output.first_content())
            } else {
                failed(Error::Deserialization)
            },
            None => failed(Error::Deserialization),
        },
{
    let completion = match &body {
        Some(output) => output.completion(),
        None => None,
    };
    match completion {
        Some(content) => Exit { code: SUCCESS, stream: Stream::Stdout, text: content.clone() },
        None => fail(Error::Deserialization),
    }
}

/// A run exits with success exactly when it ends on a completion, which then
/// goes to standard output as it is, with nothing after it. Every error
/// exits with the one failure code and on its message as a line, and only an
/// unexpected status is shown on standard output.
pub proof fn exit_code_tells_success(error: Error, content: Seq<char>)
    ensures
        completed(content).code == SUCCESS,
        completed(content).stream == Stream::Stdout,
        completed(content).text == content,
        failed(error).code == FAILURE,
        failed(error).code != SUCCESS,
        failed(error).text == error.text() + seq!['\n'],
        failed(error).stream == Stream::Stdout <==> error is UnexpectedStatus,
{
}

} // verus!
