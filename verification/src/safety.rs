use vstd::prelude::*;
use crate::text::{chars_of, contains_vec, text_contains};

verus! {

// The protected-path backstop: a command that carries a deletion token and
// names a protected system directory is refused outright, unless it goes
// through a `\Temp\` path. The check is coarse on purpose — substring
// presence only, with the `\Temp\` escape hatch matched case-sensitively.

/// The command carries one of the deletion tokens.
pub open spec fn is_destructive(cmd: Seq<char>) -> bool {
    text_contains(cmd, "rmdir"@) || text_contains(cmd, "del"@)
}

/// The command goes through a `\Temp\` path.
pub open spec fn has_temp_escape(cmd: Seq<char>) -> bool {
    text_contains(cmd, "\\Temp\\"@)
}

/// The protected prefix a command is refused for, if any: the first of
/// `C:\Windows`, `C:\Program Files` and `C:\Program Files (x86)` that the
/// command names, checked only on destructive commands without the
/// `\Temp\` escape. (A command naming `C:\Program Files (x86)` also names
/// `C:\Program Files`, so the report shows the shorter prefix.)
pub open spec fn veto_prefix(cmd: Seq<char>) -> Option<Seq<char>> {
    if !is_destructive(cmd) || has_temp_escape(cmd) {
        None
    } else if text_contains(cmd, "C:\\Windows"@) {
        Some("C:\\Windows"@)
    } else if text_contains(cmd, "C:\\Program Files"@) {
        Some("C:\\Program Files"@)
    } else if text_contains(cmd, "C:\\Program Files (x86)"@) {
        Some("C:\\Program Files (x86)"@)
    } else {
        None
    }
}

/// Whether the filter refuses the command at all.
pub open spec fn vetoed(cmd: Seq<char>) -> bool {
    veto_prefix(cmd) is Some
}

/// Classifies an expanded command against the protected-path filter,
/// returning the protected prefix it is refused for, if any.
pub fn safety_veto(command: &str) -> (r: Option<&'static str>)
    ensures
        match r {
            Some(p) => veto_prefix(command@) == Some(p@),
            None => veto_prefix(command@) is None,
        },
{
    let cmd = chars_of(command);
    let rmdir = chars_of("rmdir");
    let del = chars_of("del");
    if !contains_vec(&cmd, &rmdir) && !contains_vec(&cmd, &del) {
        return None;
    }
    let temp = chars_of("\\Temp\\");
    if contains_vec(&cmd, &temp) {
        return None;
    }
    let windows = chars_of("C:\\Windows");
    if contains_vec(&cmd, &windows) {
        return Some("C:\\Windows");
    }
    let pf = chars_of("C:\\Program Files");
    if contains_vec(&cmd, &pf) {
        return Some("C:\\Program Files");
    }
    let pf86 = chars_of("C:\\Program Files (x86)");
    if contains_vec(&cmd, &pf86) {
        return Some("C:\\Program Files (x86)");
    }
    None
}

/// Law: the filter sees only which tokens a command contains, never where
/// they stand. Two commands that agree on the presence of the two deletion
/// tokens, the `\Temp\` escape and the three protected prefixes — for
/// instance one command with its pieces swapped around — get the same
/// verdict, down to the reported prefix.
pub proof fn lemma_filter_is_order_blind(a: Seq<char>, b: Seq<char>)
    requires
        text_contains(a, "rmdir"@) == text_contains(b, "rmdir"@),
        text_contains(a, "del"@) == text_contains(b, "del"@),
        text_contains(a, "\\Temp\\"@) == text_contains(b, "\\Temp\\"@),
        text_contains(a, "C:\\Windows"@) == text_contains(b, "C:\\Windows"@),
        text_contains(a, "C:\\Program Files"@) == text_contains(b, "C:\\Program Files"@),
        text_contains(a, "C:\\Program Files (x86)"@) == text_contains(b, "C:\\Program Files (x86)"@),
    ensures
        veto_prefix(a) == veto_prefix(b),
        vetoed(a) == vetoed(b),
{
}

} // verus!
