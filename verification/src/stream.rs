//! The per-event decisions that drive a stream of text units.
//!
//! The host owns the blocking reads; this module owns what happens to each
//! outcome. In standard-input mode every line read is rendered and emitted,
//! a clean end of stream finishes the run successfully, and a read error is
//! fatal. In file mode every file's content is rendered and emitted, and
//! the first file that cannot be read aborts the run, carrying the path
//! that failed; the host must stop there, so no later file is ever read.

use crate::options::OutputOptions;
use crate::transform::rendered;
use crate::transform::transform_unit;
use vstd::prelude::*;
use vstd::string::*;

verus! {

/// A fatal failure of the run.
pub enum CatError {
    /// The standard-input read signalled an error other than end of stream.
    StdinRead { cause: String },
    /// A named input path could not be opened or read; carries the path and
    /// the underlying cause.
    FileRead { path: String, cause: String },
}

/// What one read of a source produced: a unit of text, a clean end of
/// stream, or a read error described by its cause.
pub enum SourceEvent {
    Unit(String),
    EndOfStream,
    ReadError(String),
}

/// What the host must do next: write a rendered unit to the sink, finish
/// the run successfully, or abort it with a fatal error.
pub enum StreamStep {
    Emit(String),
    Finish,
    Abort(CatError),
}

/// The message of a fatal error, naming what failed and why.
pub open spec fn message_of(e: CatError) -> Seq<char> {
    match e {
        CatError::StdinRead { cause } => "Cannot read from stdin: "@ + cause@,
        CatError::FileRead { path, cause } => "Error when reading "@ + path@ + ": "@ + cause@,
    }
}

impl CatError {
    /// Render the error as a single descriptive line.
    pub fn message(&self) -> (r: String)
        ensures
            r@ == message_of(*self),
    {
        match self {
            CatError::StdinRead { cause } => {
                let mut r: String = String::from_str("Cannot read from stdin: ");
                r.append(cause.as_str());
                r
            },
            CatError::FileRead { path, cause } => {
                let mut r: String = String::from_str("Error when reading ");
                r.append(path.as_str());
                r.append(": ");
                r.append(cause.as_str());
                r
            },
        }
    }
}

/// Decide one step of standard-input mode. A unit is rendered and emitted;
/// end of stream finishes the run without error; a read error aborts it.
pub fn stdin_step(opts: &OutputOptions, event: SourceEvent) -> (r: StreamStep)
    ensures
        event matches SourceEvent::Unit(s) ==> r matches StreamStep::Emit(out) && out@
            == rendered(opts.show_tabs, opts.show_ends, s@),
        event matches SourceEvent::EndOfStream ==> r is Finish,
        event matches SourceEvent::ReadError(cause) ==> r matches StreamStep::Abort(e) && e
            matches CatError::StdinRead { cause: c } && c@ == cause@,
{
    match event {
        SourceEvent::Unit(s) => StreamStep::Emit(transform_unit(opts, s.as_str())),
        SourceEvent::EndOfStream => StreamStep::Finish,
        SourceEvent::ReadError(cause) => StreamStep::Abort(CatError::StdinRead { cause }),
    }
}

/// Decide one step of file mode from the outcome of reading the file at
/// `path`. Content is rendered and emitted; a failed read aborts the run
/// with an error naming the path and the cause.
pub fn file_step(opts: &OutputOptions, path: String, outcome: Result<String, String>) -> (r:
    StreamStep)
    ensures
        outcome matches Ok(content) ==> r matches StreamStep::Emit(out) && out@ == rendered(
            opts.show_tabs,
            opts.show_ends,
            content@,
        ),
        outcome matches Err(cause) ==> r matches StreamStep::Abort(e) && e
            matches CatError::FileRead { path: p, cause: c } && p@ == path@ && c@ == cause@,
{
    match outcome {
        Ok(content) => StreamStep::Emit(transform_unit(opts, content.as_str())),
        Err(cause) => StreamStep::Abort(CatError::FileRead { path, cause }),
    }
}

} // verus!
