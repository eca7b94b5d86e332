//! The failure signatures and the match of one line against them.

use crate::text::{trim_line, trimmed};
use vstd::prelude::*;
use vstd::string::StringExecFns;

verus! {

/// GCC's missing header, e.g.
/// `pygraphviz/graphviz_wrap.c:3020:10: fatal error: graphviz/cgraph.h: No such file or directory`
pub const MISSING_HEADER_RE_GCC: &'static str =
    r".*\.(?:c|c..|h|h..):\d+:\d+: fatal error: (.*\.(?:h|h..)): No such file or directory";

/// Clang's missing header, e.g.
/// `pygraphviz/graphviz_wrap.c:3023:10: fatal error: 'graphviz/cgraph.h' file not found`
pub const MISSING_HEADER_RE_CLANG: &'static str =
    r".*\.(?:c|c..|h|h..):\d+:\d+: fatal error: '(.*\.(?:h|h..))' file not found";

/// MSVC's missing header, e.g.
/// `pygraphviz/graphviz_wrap.c(3023): fatal error C1083: Cannot open include file: 'graphviz/cgraph.h': No such file or directory`
pub const MISSING_HEADER_RE_MSVC: &'static str =
    r".*\.(?:c|c..|h|h..)\(\d+\): fatal error C1083: Cannot open include file: '(.*\.(?:h|h..))': No such file or directory";

/// The system linker's missing library, e.g.
/// `/usr/bin/ld: cannot find -lncurses: No such file or directory`
pub const LD_NOT_FOUND_RE: &'static str =
    r"/usr/bin/ld: cannot find -l([a-zA-Z10-9]+): No such file or directory";

/// setuptools without the `wheel` package: `error: invalid command 'bdist_wheel'`
pub const WHEEL_NOT_FOUND_RE: &'static str = r"error: invalid command 'bdist_wheel'";

/// A build script that imports torch without declaring it, e.g.
/// `ModuleNotFoundError: No module named 'torch'`
pub const TORCH_NOT_FOUND_RE: &'static str = r"ModuleNotFoundError: No module named 'torch'";

/// The text of the first capture group of the leftmost-first match of the
/// regular expression `pattern` in `hay`; `None` where the pattern does not
/// compile, does not match, or its first group took no part in the match.
pub uninterp spec fn regex_group_one(pattern: Seq<char>, hay: Seq<char>) -> Option<Seq<char>>;

/// Whether the regular expression `pattern` compiles and matches somewhere in `hay`.
pub uninterp spec fn regex_is_match(pattern: Seq<char>, hay: Seq<char>) -> bool;

/// Relies on `regex::Regex::new`, `Regex::captures` and `Captures::get`:
/// the text of group one of the leftmost-first match, if any.
#[verifier::external_body]
fn capture_group_one(pattern: &str, hay: &str) -> (r: Option<String>)
    ensures
        match r {
            Some(s) => regex_group_one(pattern@, hay@) == Some(s@),
            None => regex_group_one(pattern@, hay@) is None,
        },
{
    match regex::Regex::new(pattern) {
        Ok(re) => re.captures(hay).and_then(|c| c.get(1)).map(|m| m.as_str().to_string()),
        Err(_) => None,
    }
}

/// Relies on `regex::Regex::new` and `Regex::is_match`: whether the pattern
/// matches anywhere in the haystack.
#[verifier::external_body]
fn pattern_matches(pattern: &str, hay: &str) -> (r: bool)
    ensures
        r == regex_is_match(pattern@, hay@),
{
    match regex::Regex::new(pattern) {
        Ok(re) => re.is_match(hay),
        Err(_) => false,
    }
}

/// The library whose absence made a build fail.
#[derive(Debug, Clone, PartialEq, Eq)]
pub enum MissingLibrary {
    /// A C or C++ header, by its include path.
    Header(String),
    /// A shared library, by the name given to the linker's `-l`.
    Linker(String),
    /// A Python package needed at build time.
    PythonPackage(String),
}

/// What a [`MissingLibrary`] names, as mathematical text.
pub enum MissingLibraryView {
    Header(Seq<char>),
    Linker(Seq<char>),
    PythonPackage(Seq<char>),
}

impl View for MissingLibrary {
    type V = MissingLibraryView;

    open spec fn view(&self) -> MissingLibraryView {
        match self {
            MissingLibrary::Header(h) => MissingLibraryView::Header(h@),
            MissingLibrary::Linker(l) => MissingLibraryView::Linker(l@),
            MissingLibrary::PythonPackage(p) => MissingLibraryView::PythonPackage(p@),
        }
    }
}

/// The view of an optional [`MissingLibrary`].
pub open spec fn option_view(o: Option<MissingLibrary>) -> Option<MissingLibraryView> {
    match o {
        Some(m) => Some(m@),
        None => None,
    }
}

/// The cause that the outcomes of the six signatures on one line point to:
/// the three header signatures first, then the linker, then the two
/// package signatures, each in that order.
pub open spec fn select_signature(
    gcc: Option<Seq<char>>,
    clang: Option<Seq<char>>,
    msvc: Option<Seq<char>>,
    linker: Option<Seq<char>>,
    wheel: bool,
    torch: bool,
) -> Option<MissingLibraryView> {
    if gcc is Some {
        Some(MissingLibraryView::Header(gcc->0))
    } else if clang is Some {
        Some(MissingLibraryView::Header(clang->0))
    } else if msvc is Some {
        Some(MissingLibraryView::Header(msvc->0))
    } else if linker is Some {
        Some(MissingLibraryView::Linker(linker->0))
    } else if wheel {
        Some(MissingLibraryView::PythonPackage("wheel"@))
    } else if torch {
        Some(MissingLibraryView::PythonPackage("torch"@))
    } else {
        None
    }
}

/// The cause that one already trimmed line of output points to, if any.
pub open spec fn trimmed_line_cause(t: Seq<char>) -> Option<MissingLibraryView> {
    select_signature(
        regex_group_one(MISSING_HEADER_RE_GCC@, t),
        regex_group_one(MISSING_HEADER_RE_CLANG@, t),
        regex_group_one(MISSING_HEADER_RE_MSVC@, t),
        regex_group_one(LD_NOT_FOUND_RE@, t),
        regex_is_match(WHEEL_NOT_FOUND_RE@, t),
        regex_is_match(TORCH_NOT_FOUND_RE@, t),
    )
}

/// The cause that one line of output points to, if any: the line is trimmed
/// of surrounding whitespace before the signatures are tried.
pub open spec fn line_cause(line: Seq<char>) -> Option<MissingLibraryView> {
    trimmed_line_cause(trimmed(line))
}

/// The view of an optional `String`.
pub open spec fn string_option_view(o: Option<String>) -> Option<Seq<char>> {
    match o {
        Some(s) => Some(s@),
        None => None,
    }
}

impl MissingLibrary {
    /// Picks the cause from what each signature found on one line, by the
    /// signatures' priority.
    pub fn from_signature_matches(
        gcc: Option<String>,
        clang: Option<String>,
        msvc: Option<String>,
        linker: Option<String>,
        wheel: bool,
        torch: bool,
    ) -> (r: Option<MissingLibrary>)
        ensures
            option_view(r) == select_signature(
                string_option_view(gcc),
                string_option_view(clang),
                string_option_view(msvc),
                string_option_view(linker),
                wheel,
                torch,
            ),
    {
        if let Some(h) = gcc {
            Some(MissingLibrary::Header(h))
        } else if let Some(h) = clang {
            Some(MissingLibrary::Header(h))
        } else if let Some(h) = msvc {
            Some(MissingLibrary::Header(h))
        } else if let Some(l) = linker {
            Some(MissingLibrary::Linker(l))
        } else if wheel {
            Some(MissingLibrary::PythonPackage(String::from_str("wheel")))
        } else if torch {
            Some(MissingLibrary::PythonPackage(String::from_str("torch")))
        } else {
            None
        }
    }

    /// The cause that one line of build output points to, if any.
    pub fn from_line(line: &str) -> (r: Option<MissingLibrary>)
        ensures
            option_view(r) == line_cause(line@),
    {
        let t = trim_line(line);
        let gcc = capture_group_one(MISSING_HEADER_RE_GCC, t);
        let clang = capture_group_one(MISSING_HEADER_RE_CLANG, t);
        let msvc = capture_group_one(MISSING_HEADER_RE_MSVC, t);
        let linker = capture_group_one(LD_NOT_FOUND_RE, t);
        let wheel = pattern_matches(WHEEL_NOT_FOUND_RE, t);
        let torch = pattern_matches(TORCH_NOT_FOUND_RE, t);
        MissingLibrary::from_signature_matches(gcc, clang, msvc, linker, wheel, torch)
    }
}

} // verus!
