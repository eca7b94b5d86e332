//! The error value of a failed build backend, and how it is rendered.

use crate::signature::{line_cause, option_view, MissingLibrary, MissingLibraryView};
use crate::text::{join_lines, joined, line_views};
use vstd::prelude::*;
use vstd::string::StringExecFns;

verus! {

/// How many of the last lines of stderr are searched for a known failure.
pub const TAIL_WINDOW: usize = 10;

/// How much of the backend's output an error keeps.
#[derive(Clone, Copy, Debug, PartialEq, Eq)]
pub enum BuildOutput {
    /// Keep none of it: the output was already shown as it came.
    Stderr,
    /// Keep all of stdout and stderr in the error.
    Debug,
}

/// What a build backend left behind once it exited.
#[derive(Debug, Clone)]
pub struct PythonRunnerOutput {
    /// The exit status, as the platform writes it (`exit status: 1`).
    pub status: String,
    /// The lines written to stdout, in order.
    pub stdout: Vec<String>,
    /// The lines written to stderr, in order.
    pub stderr: Vec<String>,
}

/// A [`PythonRunnerOutput`] as mathematical text.
pub struct RunnerOutputView {
    pub status: Seq<char>,
    pub stdout: Seq<Seq<char>>,
    pub stderr: Seq<Seq<char>>,
}

impl View for PythonRunnerOutput {
    type V = RunnerOutputView;

    open spec fn view(&self) -> RunnerOutputView {
        RunnerOutputView {
            status: self.status@,
            stdout: line_views(self.stdout@),
            stderr: line_views(self.stderr@),
        }
    }
}

/// The cause that the last `budget` lines of `lines` point to: the lines are
/// tried from the last one back, and the first that points to a cause wins.
pub open spec fn tail_cause(lines: Seq<Seq<char>>, budget: nat) -> Option<MissingLibraryView>
    decreases budget,
{
    if budget == 0 || lines.len() == 0 {
        None
    } else {
        match line_cause(lines.last()) {
            Some(m) => Some(m),
            None => tail_cause(lines.drop_last(), (budget - 1) as nat),
        }
    }
}

/// A missing library, tied to the package whose build needed it.
#[derive(Debug)]
pub struct MissingHeaderCause {
    pub missing_library: MissingLibrary,
    /// The package and its version, e.g. `pygraphviz-1.11`.
    pub version_id: String,
}

/// A [`MissingHeaderCause`] as mathematical text.
pub struct CauseView {
    pub library: MissingLibraryView,
    pub version_id: Seq<char>,
}

impl View for MissingHeaderCause {
    type V = CauseView;

    open spec fn view(&self) -> CauseView {
        CauseView { library: self.missing_library@, version_id: self.version_id@ }
    }
}

/// The advice given for a cause.
pub open spec fn explanation(c: CauseView) -> Seq<char> {
    let v = c.version_id;
    match c.library {
        MissingLibraryView::Header(h) => "This error likely indicates that you need to install a library that provides \""@
            + h + "\" for "@ + v,
        MissingLibraryView::Linker(l) => "This error likely indicates that you need to install the library that provides a shared library for "@
            + l + " for "@ + v + " (e.g. lib"@ + l + "-dev)"@,
        MissingLibraryView::PythonPackage(p) => "This error likely indicates that "@ + v
            + " depends on "@ + p + ", but doesn't declare it as a build dependency. If "@ + v
            + " is a first-party package, consider adding "@ + p
            + " to its build-system requirements. Otherwise, install "@ + p
            + " into the environment and re-run with build isolation disabled."@,
    }
}

impl MissingHeaderCause {
    /// The advice for this cause, naming the package being built.
    pub fn to_string(&self) -> (r: String)
        ensures
            r@ == explanation(self@),
    {
        let v = self.version_id.as_str();
        match &self.missing_library {
            MissingLibrary::Header(h) => {
                let mut s = String::from_str(
                    "This error likely indicates that you need to install a library that provides \"",
                );
                s.append(h.as_str());
                s.append("\" for ");
                s.append(v);
                s
            },
            MissingLibrary::Linker(l) => {
                let mut s = String::from_str(
                    "This error likely indicates that you need to install the library that provides a shared library for ",
                );
                s.append(l.as_str());
                s.append(" for ");
                s.append(v);
                s.append(" (e.g. lib");
                s.append(l.as_str());
                s.append("-dev)");
                s
            },
            MissingLibrary::PythonPackage(p) => {
                let mut s = String::from_str("This error likely indicates that ");
                s.append(v);
                s.append(" depends on ");
                s.append(p.as_str());
                s.append(", but doesn't declare it as a build dependency. If ");
                s.append(v);
                s.append(" is a first-party package, consider adding ");
                s.append(p.as_str());
                s.append(" to its build-system requirements. Otherwise, install ");
                s.append(p.as_str());
                s.append(" into the environment and re-run with build isolation disabled.");
                s
            },
        }
    }
}

/// A build backend that exited with failure, with the probable cause where
/// one was recognised in its output.
#[derive(Debug)]
pub enum Error {
    BuildBackendOutput { message: String, exit_code: String, stdout: String, stderr: String },
    /// Nudges the user towards installing the missing library.
    MissingHeaderOutput {
        message: String,
        exit_code: String,
        stdout: String,
        stderr: String,
        missing_header_cause: MissingHeaderCause,
    },
    BuildBackend { message: String, exit_code: String },
    MissingHeader { message: String, exit_code: String, missing_header_cause: MissingHeaderCause },
}

/// An [`Error`] as mathematical text.
pub enum ErrorView {
    BuildBackendOutput {
        message: Seq<char>,
        exit_code: Seq<char>,
        stdout: Seq<char>,
        stderr: Seq<char>,
    },
    MissingHeaderOutput {
        message: Seq<char>,
        exit_code: Seq<char>,
        stdout: Seq<char>,
        stderr: Seq<char>,
        cause: CauseView,
    },
    BuildBackend { message: Seq<char>, exit_code: Seq<char> },
    MissingHeader { message: Seq<char>, exit_code: Seq<char>, cause: CauseView },
}

impl View for Error {
    type V = ErrorView;

    open spec fn view(&self) -> ErrorView {
        match self {
            Error::BuildBackendOutput { message, exit_code, stdout, stderr } =>
                ErrorView::BuildBackendOutput {
                message: message@,
                exit_code: exit_code@,
                stdout: stdout@,
                stderr: stderr@,
            },
            Error::MissingHeaderOutput {
                message,
                exit_code,
                stdout,
                stderr,
                missing_header_cause,
            } => ErrorView::MissingHeaderOutput {
                message: message@,
                exit_code: exit_code@,
                stdout: stdout@,
                stderr: stderr@,
                cause: missing_header_cause@,
            },
            Error::BuildBackend { message, exit_code } => ErrorView::BuildBackend {
                message: message@,
                exit_code: exit_code@,
            },
            Error::MissingHeader { message, exit_code, missing_header_cause } =>
                ErrorView::MissingHeader {
                message: message@,
                exit_code: exit_code@,
                cause: missing_header_cause@,
            },
        }
    }
}

/// The error for a failed run, given the cause found for it, if any.
pub open spec fn assembled(
    message: Seq<char>,
    output: RunnerOutputView,
    level: BuildOutput,
    cause: Option<CauseView>,
) -> ErrorView {
    match (cause, level) {
        (Some(c), BuildOutput::Stderr) => ErrorView::MissingHeader {
            message,
            exit_code: output.status,
            cause: c,
        },
        (Some(c), BuildOutput::Debug) => ErrorView::MissingHeaderOutput {
            message,
            exit_code: output.status,
            stdout: joined(output.stdout),
            stderr: joined(output.stderr),
            cause: c,
        },
        (None, BuildOutput::Stderr) => ErrorView::BuildBackend { message, exit_code: output.status },
        (None, BuildOutput::Debug) => ErrorView::BuildBackendOutput {
            message,
            exit_code: output.status,
            stdout: joined(output.stdout),
            stderr: joined(output.stderr),
        },
    }
}

/// The error for a failed run: the cause is looked for in the last lines of
/// its stderr.
pub open spec fn classified(
    message: Seq<char>,
    output: RunnerOutputView,
    level: BuildOutput,
    version_id: Seq<char>,
) -> ErrorView {
    let cause = match tail_cause(output.stderr, TAIL_WINDOW as nat) {
        Some(lib) => Some(CauseView { library: lib, version_id }),
        None => None,
    };
    assembled(message, output, level, cause)
}

/// The text of the short form of an error.
pub open spec fn terse_text(message: Seq<char>, exit_code: Seq<char>) -> Seq<char> {
    message + " with "@ + exit_code
}

/// The text of the form of an error that holds the output.
pub open spec fn verbose_text(
    message: Seq<char>,
    exit_code: Seq<char>,
    stdout: Seq<char>,
    stderr: Seq<char>,
) -> Seq<char> {
    terse_text(message, exit_code) + "\n--- stdout:\n"@ + stdout + "\n--- stderr:\n"@ + stderr
        + "\n---"@
}

/// How an error is displayed.
pub open spec fn rendered(e: ErrorView) -> Seq<char> {
    match e {
        ErrorView::BuildBackendOutput { message, exit_code, stdout, stderr } => verbose_text(
            message,
            exit_code,
            stdout,
            stderr,
        ),
        ErrorView::MissingHeaderOutput { message, exit_code, stdout, stderr, .. } =>
            verbose_text(message, exit_code, stdout, stderr),
        ErrorView::BuildBackend { message, exit_code } => terse_text(message, exit_code),
        ErrorView::MissingHeader { message, exit_code, .. } => terse_text(message, exit_code),
    }
}

/// The cause chained to an error, if any.
pub open spec fn cause_of(e: ErrorView) -> Option<CauseView> {
    match e {
        ErrorView::MissingHeaderOutput { cause, .. } => Some(cause),
        ErrorView::MissingHeader { cause, .. } => Some(cause),
        _ => None,
    }
}

/// The cause that the last lines of `stderr` point to, if any.
pub fn find_missing_library(stderr: &Vec<String>) -> (r: Option<MissingLibrary>)
    ensures
        option_view(r) == tail_cause(line_views(stderr@), TAIL_WINDOW as nat),
{
    let ghost all = line_views(stderr@);
    let mut i: usize = stderr.len();
    let mut taken: usize = 0;
    assert(all.take(i as int) == all);
    while i > 0 && taken < TAIL_WINDOW
        invariant
            i <= stderr.len(),
            taken <= TAIL_WINDOW,
            all == line_views(stderr@),
            tail_cause(all, TAIL_WINDOW as nat) == tail_cause(
                all.take(i as int),
                (TAIL_WINDOW - taken) as nat,
            ),
        decreases i,
    {
        let ghost prefix = all.take(i as int);
        assert(prefix.last() == stderr@[i - 1]@);
        assert(prefix.drop_last() == all.take(i - 1));
        let found = MissingLibrary::from_line(stderr[i - 1].as_str());
        if found.is_some() {
            return found;
        }
        i = i - 1;
        taken = taken + 1;
    }
    assert(i == 0 ==> all.take(i as int).len() == 0);
    None
}

impl Error {
    /// The error for a failed run, given the cause found for it, if any.
    pub fn assemble(
        message: String,
        output: &PythonRunnerOutput,
        level: BuildOutput,
        cause: Option<MissingHeaderCause>,
    ) -> (r: Error)
        ensures
            r@ == assembled(
                message@,
                output@,
                level,
                match cause {
                    Some(c) => Some(c@),
                    None => None,
                },
            ),
    {
        let exit_code = output.status.clone();
        match cause {
            Some(missing_header_cause) => match level {
                BuildOutput::Stderr => Error::MissingHeader { message, exit_code, missing_header_cause },
                BuildOutput::Debug => Error::MissingHeaderOutput {
                    message,
                    exit_code,
                    stdout: join_lines(&output.stdout),
                    stderr: join_lines(&output.stderr),
                    missing_header_cause,
                },
            },
            None => match level {
                BuildOutput::Stderr => Error::BuildBackend { message, exit_code },
                BuildOutput::Debug => Error::BuildBackendOutput {
                    message,
                    exit_code,
                    stdout: join_lines(&output.stdout),
                    stderr: join_lines(&output.stderr),
                },
            },
        }
    }

    /// The error for a failed run of a build backend: the last lines of its
    /// stderr are searched for a known failure, which becomes the error's
    /// cause, tied to the package `version_id`.
    pub fn from_command_output(
        message: String,
        output: &PythonRunnerOutput,
        level: BuildOutput,
        version_id: &str,
    ) -> (r: Error)
        ensures
            r@ == classified(message@, output@, level, version_id@),
    {
        let cause = match find_missing_library(&output.stderr) {
            Some(missing_library) => Some(
                MissingHeaderCause { missing_library, version_id: String::from_str(version_id) },
            ),
            None => None,
        };
        Error::assemble(message, output, level, cause)
    }

    /// The text of the error; its cause is not part of it.
    pub fn to_string(&self) -> (r: String)
        ensures
            r@ == rendered(self@),
    {
        match self {
            Error::BuildBackendOutput { message, exit_code, stdout, stderr } => verbose(
                message,
                exit_code,
                stdout,
                stderr,
            ),
            Error::MissingHeaderOutput { message, exit_code, stdout, stderr, .. } => verbose(
                message,
                exit_code,
                stdout,
                stderr,
            ),
            Error::BuildBackend { message, exit_code } => terse(message, exit_code),
            Error::MissingHeader { message, exit_code, .. } => terse(message, exit_code),
        }
    }

    /// The cause chained to the error, if one was found.
    pub fn source(&self) -> (r: Option<&MissingHeaderCause>)
        ensures
            match r {
                Some(c) => cause_of(self@) == Some(c@),
                None => cause_of(self@) is None,
            },
    {
        match self {
            Error::MissingHeaderOutput { missing_header_cause, .. } => Some(missing_header_cause),
            Error::MissingHeader { missing_header_cause, .. } => Some(missing_header_cause),
            _ => None,
        }
    }
}

/// The short form: `{message} with {exit_code}`.
fn terse(message: &String, exit_code: &String) -> (r: String)
    ensures
        r@ == terse_text(message@, exit_code@),
{
    let mut s = message.clone();
    s.append(" with ");
    s.append(exit_code.as_str());
    s
}

/// The long form, with both streams after the short form.
fn verbose(message: &String, exit_code: &String, stdout: &String, stderr: &String) -> (r: String)
    ensures
        r@ == verbose_text(message@, exit_code@, stdout@, stderr@),
{
    let mut s = terse(message, exit_code);
    s.append("\n--- stdout:\n");
    s.append(stdout.as_str());
    s.append("\n--- stderr:\n");
    s.append(stderr.as_str());
    s.append("\n---");
    s
}

} // verus!
