//! Process-scoped MIME identity tags.
//!
//! Each draggable kind gets a MIME type string of the exact shape
//! `text/x.cosmic-<kind>-id-<pid>`, where `<pid>` is the decimal process id
//! of the running shell instance. The process id makes the tag
//! process-unique, so a receiver that only recognizes its own tag in effect
//! accepts self-originated drags alone.

use vstd::prelude::*;
use vstd::string::StringExecFns;
use crate::digits::{dec_rep, is_dec_digit, lemma_dec_rep_digits, lemma_dec_rep_injective, u32_to_decimal};

verus! {

/// A draggable kind that gets its own process-scoped MIME tag.
#[derive(Clone, Copy, Debug, PartialEq, Eq, Structural)]
pub enum MimeKind {
    Workspace,
    Toplevel,
}

/// The fixed prefix of the MIME tag for a kind, everything up to the
/// decimal process id.
pub open spec fn mime_prefix(kind: MimeKind) -> Seq<char> {
    match kind {
        MimeKind::Workspace => "text/x.cosmic-workspace-id-"@,
        MimeKind::Toplevel => "text/x.cosmic-toplevel-id-"@,
    }
}

/// The full MIME tag for a kind in a process: the kind's prefix followed by
/// the process id in decimal.
pub open spec fn mime_spec(kind: MimeKind, pid: u32) -> Seq<char> {
    mime_prefix(kind) + dec_rep(pid as nat)
}

/// Builds the MIME tag string for a kind and a process id.
pub fn mime_string(kind: MimeKind, pid: u32) -> (s: String)
    ensures
        s@ == mime_spec(kind, pid),
{
    let prefix = match kind {
        MimeKind::Workspace => "text/x.cosmic-workspace-id-",
        MimeKind::Toplevel => "text/x.cosmic-toplevel-id-",
    };
    let mut s = String::from_str(prefix);
    let digits = u32_to_decimal(pid);
    s.append(digits.as_str());
    s
}

/// The per-process registry of MIME identity tags: one tag per draggable
/// kind, computed from the process id once at construction and immutable
/// afterwards.
pub struct MimeRegistry {
    pid: u32,
    workspace: String,
    toplevel: String,
}

impl MimeRegistry {
    #[verifier::type_invariant]
    spec fn wf(self) -> bool {
        &&& self.workspace@ == mime_spec(MimeKind::Workspace, self.pid)
        &&& self.toplevel@ == mime_spec(MimeKind::Toplevel, self.pid)
    }

    /// The process id the registry was built for.
    pub closed spec fn spec_pid(&self) -> u32 {
        self.pid
    }

    /// Builds the registry for one process: both tags are computed here,
    /// once, and never change afterwards.
    pub fn new(pid: u32) -> (r: MimeRegistry)
        ensures
            r.spec_pid() == pid,
    {
        MimeRegistry {
            pid,
            workspace: mime_string(MimeKind::Workspace, pid),
            toplevel: mime_string(MimeKind::Toplevel, pid),
        }
    }

    /// The process id the registry was built for.
    pub fn pid(&self) -> (r: u32)
        ensures
            r == self.spec_pid(),
    {
        self.pid
    }

    /// The cached MIME tag for a kind. Every call returns the tag computed
    /// at construction, so all callers of one registry observe the
    /// identical string.
    pub fn mime_for(&self, kind: MimeKind) -> (r: &String)
        ensures
            r@ == mime_spec(kind, self.spec_pid()),
    {
        proof {
            use_type_invariant(&*self);
        }
        match kind {
            MimeKind::Workspace => &self.workspace,
            MimeKind::Toplevel => &self.toplevel,
        }
    }
}

/// No character of a kind's MIME prefix is a decimal digit, so the
/// process id's digits can only occur after the prefix.
proof fn lemma_prefix_no_digit(kind: MimeKind, j: int)
    requires
        0 <= j < mime_prefix(kind).len(),
    ensures
        !is_dec_digit(mime_prefix(kind)[j]),
{
    reveal_strlit("text/x.cosmic-workspace-id-");
    reveal_strlit("text/x.cosmic-toplevel-id-");
}

/// The MIME tags are process-unique: two tags are equal exactly when both
/// the kind and the process id agree, so distinct shell processes (or
/// distinct kinds in one process) never produce the same tag.
pub proof fn lemma_mime_tag_injective(k1: MimeKind, pid1: u32, k2: MimeKind, pid2: u32)
    ensures
        (mime_spec(k1, pid1) == mime_spec(k2, pid2)) <==> (k1 == k2 && pid1 == pid2),
{
    reveal_strlit("text/x.cosmic-workspace-id-");
    reveal_strlit("text/x.cosmic-toplevel-id-");
    if mime_spec(k1, pid1) == mime_spec(k2, pid2) {
        if k1 != k2 {
            // the prefixes already disagree: one names the workspace kind,
            // the other the toplevel kind
            assert(mime_spec(k1, pid1)[14] == mime_prefix(k1)[14]);
            assert(mime_spec(k2, pid2)[14] == mime_prefix(k2)[14]);
            assert(false);
        } else {
            let pfx = mime_prefix(k1);
            let d1 = dec_rep(pid1 as nat);
            let d2 = dec_rep(pid2 as nat);
            assert(pfx + d1 == pfx + d2);
            assert((pfx + d1).len() == (pfx + d2).len());
            assert(d1.len() == d2.len());
            assert(d1 =~= d2) by {
                assert forall|j: int| 0 <= j < d1.len() implies d1[j] == d2[j] by {
                    assert((pfx + d1)[pfx.len() + j] == d1[j]);
                    assert((pfx + d2)[pfx.len() + j] == d2[j]);
                }
            }
            lemma_dec_rep_injective(pid1 as nat, pid2 as nat);
        }
    }
}

/// The MIME tag embeds the process id verbatim, as decimal digits, exactly
/// once: the tag is the kind's prefix followed by the pid's decimal
/// representation, and that representation occurs at no other position of
/// the tag.
pub proof fn lemma_mime_contains_pid_once(kind: MimeKind, pid: u32)
    ensures
        mime_spec(kind, pid) == mime_prefix(kind) + dec_rep(pid as nat),
        mime_spec(kind, pid).subrange(
            mime_prefix(kind).len() as int,
            mime_spec(kind, pid).len() as int,
        ) == dec_rep(pid as nat),
        forall|i: int|
            0 <= i && i + dec_rep(pid as nat).len() <= mime_spec(kind, pid).len() ==> ((
            #[trigger] mime_spec(kind, pid).subrange(i, i + dec_rep(pid as nat).len() as int)
                == dec_rep(pid as nat)) <==> i == mime_prefix(kind).len()),
{
    let pfx = mime_prefix(kind);
    let dig = dec_rep(pid as nat);
    let s = mime_spec(kind, pid);
    lemma_dec_rep_digits(pid as nat);
    assert(s.subrange(pfx.len() as int, s.len() as int) =~= dig);
    assert forall|i: int| 0 <= i && i + dig.len() <= s.len() implies ((#[trigger] s.subrange(
        i,
        i + dig.len() as int,
    ) == dig) <==> i == pfx.len()) by {
        if i < pfx.len() {
            lemma_prefix_no_digit(kind, i);
            assert(s[i] == pfx[i]);
            assert(is_dec_digit(dig[0]));
            // were the window at i equal to the digits, the prefix
            // character at i would itself be a digit
            assert(s.subrange(i, i + dig.len() as int) != dig) by {
                if s.subrange(i, i + dig.len() as int) == dig {
                    assert(s.subrange(i, i + dig.len() as int)[0] == s[i]);
                    assert(false);
                }
            }
        } else {
            assert(i == pfx.len());
            assert(s.subrange(i, i + dig.len() as int) =~= dig);
        }
    }
}

} // verus!
