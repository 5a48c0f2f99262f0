//! The questions put to the user, and how their answers are read.

use crate::text::{lemma_trim_is_idempotent, trim, trimmed};
use vstd::prelude::*;

verus! {

/// The question that asks for the toolchain version.
pub const VERSION_QUESTION: &'static str = "Enter the scarb version (leave empty for latest):";

/// The question that asks whether the profile may be edited.
pub const PROFILE_QUESTION: &'static str = "Do you want to automate .bashrc edits (y/n):";

/// The version that stands for the newest release.
pub const LATEST: &'static str = "latest";

/// A version of the toolchain: the newest release, or the one named.
#[derive(PartialEq, Eq, Debug)]
pub enum Version {
    Latest,
    Exact(String),
}

/// The mathematical content of a `Version`.
pub enum VersionView {
    Latest,
    Exact(Seq<char>),
}

impl View for Version {
    type V = VersionView;

    open spec fn view(&self) -> VersionView {
        match *self {
            Version::Latest => VersionView::Latest,
            Version::Exact(name) => VersionView::Exact(name@),
        }
    }
}

/// How a version is named to the version manager.
pub open spec fn version_text(version: VersionView) -> Seq<char> {
    match version {
        VersionView::Latest => LATEST@,
        VersionView::Exact(name) => name,
    }
}

/// What was asked for: whether a reinstall is to be forced, and the version
/// of the toolchain.
#[derive(Debug)]
pub struct InstallRequest {
    pub force_reinstall: bool,
    pub toolchain_version: Version,
}

/// The mathematical content of an `InstallRequest`.
pub struct InstallRequestView {
    pub force_reinstall: bool,
    pub toolchain_version: VersionView,
}

impl View for InstallRequest {
    type V = InstallRequestView;

    open spec fn view(&self) -> InstallRequestView {
        InstallRequestView {
            force_reinstall: self.force_reinstall,
            toolchain_version: self.toolchain_version@,
        }
    }
}

/// The version an answer asks for: the latest when the answer is empty or
/// white space only, the one it names otherwise.
pub open spec fn resolved_version(answer: Seq<char>) -> VersionView {
    if trimmed(answer).len() == 0 {
        VersionView::Latest
    } else {
        VersionView::Exact(answer)
    }
}

/// Whether an answer agrees: only `y`, with or without white space around
/// it, does.
pub open spec fn affirmative(answer: Seq<char>) -> bool {
    trimmed(answer) == seq!['y']
}

/// The answer the user gave in a line of input: the line without the white
/// space around it, the line break included.
pub fn prompt_user(line: &str) -> (answer: String)
    ensures
        answer@ == trimmed(line@),
{
    String::from_str(trim(line))
}

/// Reads the answer to `VERSION_QUESTION`.
pub fn resolve_version(answer: &str) -> (version: Version)
    ensures
        version@ == resolved_version(answer@),
{
    if trim(answer).is_empty() {
        Version::Latest
    } else {
        Version::Exact(String::from_str(answer))
    }
}

impl Version {
    /// How the version is named to the version manager: `LATEST`, or the
    /// name it was given.
    pub fn as_str(&self) -> (text: &str)
        ensures
            text@ == version_text(self@),
    {
        match self {
            Version::Latest => LATEST,
            Version::Exact(name) => name.as_str(),
        }
    }
}

/// Reads the answer to `PROFILE_QUESTION`.
pub fn is_affirmative(answer: &str) -> (yes: bool)
    ensures
        yes == affirmative(answer@),
{
    let rest = trim(answer);
    let yes = rest.unicode_len() == 1 && rest.get_char(0) == 'y';
    assert(yes ==> rest@ =~= seq!['y']);
    yes
}

impl InstallRequest {
    /// The request made by the command line's flag and the answer to
    /// `VERSION_QUESTION`.
    pub fn new(force_reinstall: bool, version_answer: &str) -> (request: InstallRequest)
        ensures
            request@.force_reinstall == force_reinstall,
            request@.toolchain_version == resolved_version(version_answer@),
    {
        InstallRequest { force_reinstall, toolchain_version: resolve_version(version_answer) }
    }
}

/// An answer may be trimmed before it is read, as `prompt_user` does: the
/// version it asks for is `LATEST` or the trimmed answer, and whether it
/// agrees does not change.
pub proof fn lemma_trimmed_answer_reads_the_same(line: Seq<char>)
    ensures
        resolved_version(trimmed(line)) == (if trimmed(line).len() == 0 {
            VersionView::Latest
        } else {
            VersionView::Exact(trimmed(line))
        }),
        affirmative(trimmed(line)) == affirmative(line),
{
    lemma_trim_is_idempotent(line);
}

/// An empty answer asks for the latest version, which is named `LATEST`.
pub proof fn lemma_empty_answer_asks_for_latest()
    ensures
        resolved_version(Seq::empty()) == VersionView::Latest,
        version_text(resolved_version(Seq::empty())) == LATEST@,
{
}

} // verus!
