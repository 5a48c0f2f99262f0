//! The errors an installation can end with, and how they are worded for the
//! user.

use crate::text::{lemma_occurs_in_itself, lemma_occurs_within, occurs};
use vstd::prelude::*;

verus! {

/// The commands whose failure stops an installation.
#[derive(Clone, Copy, PartialEq, Eq, Debug)]
pub enum Operation {
    /// Installing a system package.
    InstallPackage,
    /// Cloning the version manager's sources.
    CloneRepository,
    /// Sourcing the profile again.
    SourceProfile,
    /// Registering a plugin with the version manager.
    AddPlugin,
    /// Installing a version of a plugin's tool.
    InstallVersion,
}

/// Why an installation stopped.
#[derive(PartialEq, Eq, Debug)]
pub enum InstallError {
    /// A child process could not be started.
    ProcessSpawn { detail: String },
    /// A child process ran and exited with a non-zero status.
    CommandFailed { operation: Operation, subject: String, stderr: String },
    /// The profile file or the environment could not be accessed.
    Io { detail: String },
    /// The requested operation does not exist yet.
    NotImplemented,
}

/// The mathematical content of an `InstallError`.
pub enum InstallErrorView {
    ProcessSpawn { detail: Seq<char> },
    CommandFailed { operation: Operation, subject: Seq<char>, stderr: Seq<char> },
    Io { detail: Seq<char> },
    NotImplemented,
}

impl View for InstallError {
    type V = InstallErrorView;

    open spec fn view(&self) -> InstallErrorView {
        match *self {
            InstallError::ProcessSpawn { detail } => InstallErrorView::ProcessSpawn {
                detail: detail@,
            },
            InstallError::CommandFailed {
                operation,
                subject,
                stderr,
            } => InstallErrorView::CommandFailed {
                operation,
                subject: subject@,
                stderr: stderr@,
            },
            InstallError::Io { detail } => InstallErrorView::Io { detail: detail@ },
            InstallError::NotImplemented => InstallErrorView::NotImplemented,
        }
    }
}

/// How the `NotImplemented` error is worded.
pub const NOT_IMPLEMENTED: &'static str = "not implemented";

/// The escape sequence that ends all colouring.
pub open spec fn sgr_reset() -> Seq<char> {
    seq!['\u{1b}', '[', '0', 'm']
}

/// The escape sequence that starts red text.
pub open spec fn sgr_red() -> Seq<char> {
    seq!['\u{1b}', '[', '3', '1', 'm']
}

/// The escape sequence that starts cyan text.
pub open spec fn sgr_cyan() -> Seq<char> {
    seq!['\u{1b}', '[', '3', '6', 'm']
}

/// `shown` is a rendering of `text` in the colour that `start` switches on:
/// either the text itself, where colours are switched off, or the text
/// between `start` and the reset sequence. Nothing is said of a text that
/// itself holds a reset sequence.
pub open spec fn renders(text: Seq<char>, start: Seq<char>, shown: Seq<char>) -> bool {
    !occurs(text, sgr_reset()) ==> shown == text || shown == start + text + sgr_reset()
}

/// `colored::Colorize::red` on a string slice, formatted through `Display`.
/// Whether colours are used depends on the terminal and the environment, so
/// both outcomes are allowed for: the text is returned as it is, or wrapped
/// in the red foreground code and the reset code. A text that holds a reset
/// code is changed inside as well, and nothing is claimed of it.
#[verifier::external_body]
fn red(text: &str) -> (shown: String)
    ensures
        renders(text@, sgr_red(), shown@),
{
    colored::Colorize::red(text).to_string()
}

/// `colored::Colorize::cyan` on a string slice, formatted through
/// `Display`: as `red`, with the cyan foreground code.
#[verifier::external_body]
fn cyan(text: &str) -> (shown: String)
    ensures
        renders(text@, sgr_cyan(), shown@),
{
    colored::Colorize::cyan(text).to_string()
}

/// A rendering of a text holds the text.
pub proof fn lemma_rendering_holds_text(text: Seq<char>, start: Seq<char>, shown: Seq<char>)
    requires
        renders(text, start, shown),
        !occurs(text, sgr_reset()),
    ensures
        occurs(shown, text),
{
    lemma_occurs_in_itself(text);
    if shown != text {
        lemma_occurs_within(start, text, sgr_reset(), text);
    }
}

/// The wording of a failed command holds both the captured error output
/// and the subject, however each of them came to be rendered, as long as
/// neither holds a reset sequence itself.
pub proof fn lemma_message_holds_stderr_and_subject(
    stderr: Seq<char>,
    subject: Seq<char>,
    shown_stderr: Seq<char>,
    shown_subject: Seq<char>,
)
    requires
        renders(stderr, sgr_red(), shown_stderr),
        renders(subject, sgr_cyan(), shown_subject),
    ensures
        !occurs(stderr, sgr_reset()) ==> occurs(
            shown_stderr + seq![' '] + shown_subject,
            stderr,
        ),
        !occurs(subject, sgr_reset()) ==> occurs(
            shown_stderr + seq![' '] + shown_subject,
            subject,
        ),
{
    let gap = seq![' '];
    let message = shown_stderr + gap + shown_subject;
    if !occurs(stderr, sgr_reset()) {
        lemma_rendering_holds_text(stderr, sgr_red(), shown_stderr);
        lemma_occurs_within(Seq::empty(), shown_stderr, gap + shown_subject, stderr);
        assert(Seq::<char>::empty() + shown_stderr + (gap + shown_subject) =~= message);
    }
    if !occurs(subject, sgr_reset()) {
        lemma_rendering_holds_text(subject, sgr_cyan(), shown_subject);
        lemma_occurs_within(shown_stderr + gap, shown_subject, Seq::empty(), subject);
        assert(shown_stderr + gap + shown_subject + Seq::<char>::empty() =~= message);
    }
}

/// The wording of a failed command, from the captured error output and the
/// subject as they are to be shown: the two, separated by one space.
pub fn compose_message(shown_stderr: &str, shown_subject: &str) -> (message: String)
    ensures
        message@ == shown_stderr@ + seq![' '] + shown_subject@,
{
    proof {
        reveal_strlit(" ");
        assert(" "@ =~= seq![' ']);
    }
    String::from_str(shown_stderr).concat(" ").concat(shown_subject)
}

impl InstallError {
    /// The wording of the error for the user. A failed command is worded as
    /// its captured error output in red, a space, and its subject in cyan;
    /// unless one of them holds a reset sequence, the message holds both.
    pub fn message(&self) -> (message: String)
        ensures
            self@ matches InstallErrorView::ProcessSpawn { detail } ==> message@ == detail,
            self@ matches InstallErrorView::Io { detail } ==> message@ == detail,
            self@ is NotImplemented ==> message@ == NOT_IMPLEMENTED@,
            self@ matches InstallErrorView::CommandFailed { subject, stderr, .. } ==> {
                &&& exists|a: Seq<char>, b: Seq<char>|
                    {
                        &&& #[trigger] renders(stderr, sgr_red(), a)
                        &&& #[trigger] renders(subject, sgr_cyan(), b)
                        &&& message@ == a + seq![' '] + b
                    }
                &&& !occurs(stderr, sgr_reset()) ==> occurs(message@, stderr)
                &&& !occurs(subject, sgr_reset()) ==> occurs(message@, subject)
            },
    {
        match self {
            InstallError::ProcessSpawn { detail } => detail.clone(),
            InstallError::Io { detail } => detail.clone(),
            InstallError::NotImplemented => String::from_str(NOT_IMPLEMENTED),
            InstallError::CommandFailed { subject, stderr, .. } => {
                let shown_stderr = red(stderr.as_str());
                let shown_subject = cyan(subject.as_str());
                let message = compose_message(shown_stderr.as_str(), shown_subject.as_str());
                proof {
                    lemma_message_holds_stderr_and_subject(
                        stderr@,
                        subject@,
                        shown_stderr@,
                        shown_subject@,
                    );
                }
                message
            },
        }
    }
}

/// Sets up a new project. This is not provided yet: every call is refused
/// with `NotImplemented`, whatever is asked for.
pub fn init(name: &str, repo: Option<&str>, no_git: bool, force: bool) -> (done: Result<
    (),
    InstallError,
>)
    ensures
        done matches Err(error) && error@ is NotImplemented,
{
    Err(InstallError::NotImplemented)
}

} // verus!
