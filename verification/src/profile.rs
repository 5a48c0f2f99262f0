//! The shell-profile editor: decides what, if anything, must be appended to
//! the user's startup file so that the version manager is loaded by new
//! shells.

use crate::text::{contains, occurs, occurs_at, occurs_once};
use vstd::prelude::*;

verus! {

/// The line fragment whose presence shows that a profile already loads the
/// version manager.
pub const MARKER: &'static str = ".asdf/asdf.sh";

/// The lines appended to a profile that does not yet load the version
/// manager.
pub const SNIPPET: &'static str =
    "\n# Load asdf completions and asdf itself\n. \"$HOME/.asdf/asdf.sh\"\n. \"$HOME/.asdf/completions/asdf.bash\"\n\n";

/// The content of a profile after the editor has run on `content`.
pub open spec fn configured(content: Seq<char>) -> Seq<char> {
    if occurs(content, MARKER@) {
        content
    } else {
        content + SNIPPET@
    }
}

/// Decides what to append to a profile with the given content: the snippet
/// when the marker is absent, nothing when it is already there.
pub fn update_bashrc(content: &str) -> (addition: Option<&'static str>)
    ensures
        addition is None <==> occurs(content@, MARKER@),
        addition matches Some(text) ==> text@ == SNIPPET@,
        configured(content@) == content@ + (match addition {
            Some(text) => text@,
            None => Seq::<char>::empty(),
        }),
{
    if contains(content, MARKER) {
        assert(content@ + Seq::<char>::empty() =~= content@);
        None
    } else {
        Some(SNIPPET)
    }
}

/// The offset of the marker within the snippet.
pub open spec fn marker_offset() -> int {
    50
}

/// The snippet holds the marker at `marker_offset()` and nowhere else, and
/// the marker holds no line break.
pub proof fn lemma_snippet_shape()
    ensures
        SNIPPET@.len() == 104,
        MARKER@.len() == 13,
        SNIPPET@[0] == '\n',
        occurs_at(SNIPPET@, MARKER@, marker_offset()),
        forall|at: int| occurs_at(SNIPPET@, MARKER@, at) ==> at == marker_offset(),
        forall|k: int| 0 <= k < MARKER@.len() ==> MARKER@[k] != '\n',
{
    reveal_strlit(".asdf/asdf.sh");
    reveal_strlit(
        "\n# Load asdf completions and asdf itself\n. \"$HOME/.asdf/asdf.sh\"\n. \"$HOME/.asdf/completions/asdf.bash\"\n\n",
    );
    let s = SNIPPET@;
    let m = MARKER@;
    assert(s.subrange(50, 63) =~= m);
    assert forall|at: int| occurs_at(s, m, at) implies at == 50 by {
        let w = s.subrange(at, at + 13);
        assert(w[5] == m[5]);
        assert(w[12] == m[12]);
        assert(w[7] == m[7]);
        assert(s[at + 5] == '/');
        assert(s[at + 12] == 'h');
        assert(s[at + 7] == 's');
    }
}

/// Running the editor a second time changes nothing: the content after the
/// second run equals the content after the first, and it holds the marker.
pub proof fn lemma_update_is_idempotent(content: Seq<char>)
    ensures
        occurs(configured(content), MARKER@),
        configured(configured(content)) == configured(content),
{
    lemma_snippet_shape();
    if !occurs(content, MARKER@) {
        let after = content + SNIPPET@;
        let at = content.len() + marker_offset();
        assert(after.subrange(at, at + MARKER@.len()) =~= SNIPPET@.subrange(
            marker_offset(),
            marker_offset() + MARKER@.len(),
        ));
        assert(occurs_at(after, MARKER@, at));
    }
}

/// A profile that holds the marker at most once holds it exactly once after
/// the editor has run, however often it runs.
pub proof fn lemma_marker_stands_once(content: Seq<char>)
    requires
        forall|a: int, b: int|
            occurs_at(content, MARKER@, a) && occurs_at(content, MARKER@, b) ==> a == b,
    ensures
        occurs_once(configured(content), MARKER@),
        occurs_once(configured(configured(content)), MARKER@),
{
    lemma_snippet_shape();
    lemma_update_is_idempotent(content);
    let m = MARKER@;
    if occurs(content, m) {
        let at = choose|at: int| occurs_at(content, m, at);
        assert(occurs_at(content, m, at));
    } else {
        let after = content + SNIPPET@;
        let at = content.len() + marker_offset();
        assert(after.subrange(at, at + m.len()) =~= SNIPPET@.subrange(
            marker_offset(),
            marker_offset() + m.len(),
        ));
        assert(occurs_at(after, m, at));
        assert forall|other: int| occurs_at(after, m, other) implies other == at by {
            let w = after.subrange(other, other + m.len());
            if other + m.len() <= content.len() {
                assert(content.subrange(other, other + m.len()) =~= w);
                assert(occurs_at(content, m, other));
            } else if other < content.len() {
                let k = content.len() - other;
                assert(w[k] == after[content.len() as int]);
                assert(m[k] == '\n');
            } else {
                let inner = other - content.len();
                assert(SNIPPET@.subrange(inner, inner + m.len()) =~= w);
                assert(occurs_at(SNIPPET@, m, inner));
            }
        }
    }
}

} // verus!
