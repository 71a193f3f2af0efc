//! What embedding the Teal compiler computes: the Lua source that loads the
//! compiler, and the decisions taken while the compiler is looked for.
//! Running the commands themselves is left to the caller.

use vstd::prelude::*;
use vstd::string::*;

verus! {

/// The Lua source that defines `tl` from the compiler's source and installs
/// its loader.
pub open spec fn primed_vm_text(compiler: Seq<char>) -> Seq<char> {
    "local tl = (function()\n"@ + compiler + "\nend)()\ntl.loader()\n"@
}

/// The Lua source that prepares the compiler and then loads `file`.
pub open spec fn require_text(primed_vm: Seq<char>, file: Seq<char>) -> Seq<char> {
    primed_vm + "\n return require('"@ + file + "')"@
}

/// Wraps the compiler's source so that running it defines `tl` and installs
/// the loader.
pub fn primed_vm_source(compiler: &str) -> (r: String)
    ensures
        r@ == primed_vm_text(compiler@),
{
    let mut out = String::from_str("local tl = (function()\n");
    out.append(compiler);
    out.append("\nend)()\ntl.loader()\n");
    out
}

/// The Lua source that prepares the compiler and returns what `file` gives.
pub fn require_script(primed_vm: &str, file: &str) -> (r: String)
    ensures
        r@ == require_text(primed_vm@, file@),
{
    let mut out = String::from_str(primed_vm);
    out.append("\n return require('");
    out.append(file);
    out.append("')");
    out
}

/// What to do once the command that looks for the compiler has ended.
#[derive(Clone, Copy, Debug, PartialEq, Eq)]
pub enum FindStep {
    /// The command succeeded: the first line of its output is the path.
    TakeFirstLine,
    /// The command failed on the global tree: run it on the local tree.
    RetryLocal,
    /// The command failed on the local tree too.
    GiveUp,
}

/// Decides the step after a run of the command.
pub fn after_find(succeeded: bool, is_local: bool) -> (r: FindStep)
    ensures
        succeeded ==> r == FindStep::TakeFirstLine,
        !succeeded && !is_local ==> r == FindStep::RetryLocal,
        !succeeded && is_local ==> r == FindStep::GiveUp,
{
    if succeeded {
        FindStep::TakeFirstLine
    } else if !is_local {
        FindStep::RetryLocal
    } else {
        FindStep::GiveUp
    }
}

/// Why the compiler could not be started.
#[derive(Clone, Copy, Debug, PartialEq, Eq)]
pub enum SpawnFailure {
    NotFound,
    PermissionDenied,
    Other,
}

/// The message for each reason.
pub open spec fn spawn_failure_text(kind: SpawnFailure) -> Seq<char> {
    match kind {
        SpawnFailure::NotFound => "Could not compile teal. Command `tl` not found."@,
        SpawnFailure::PermissionDenied => "Permission denied when running the teal compiler."@,
        SpawnFailure::Other => "Error while running teal. Is it available as `tl` in the path?"@,
    }
}

/// Tells the user why the compiler could not be started.
pub fn spawn_failure_message(kind: SpawnFailure) -> (r: &'static str)
    ensures
        r@ == spawn_failure_text(kind),
{
    match kind {
        SpawnFailure::NotFound => "Could not compile teal. Command `tl` not found.",
        SpawnFailure::PermissionDenied => "Permission denied when running the teal compiler.",
        SpawnFailure::Other => "Error while running teal. Is it available as `tl` in the path?",
    }
}

/// `k` is where the first line of `s` ends: at the first line feed, or at
/// the end of `s` where it holds none.
pub open spec fn is_first_break(s: Seq<char>, k: int) -> bool {
    &&& 0 <= k <= s.len()
    &&& forall|j: int| 0 <= j < k ==> s[j] != '\n'
    &&& k < s.len() ==> s[k] == '\n'
}

/// Where the first line of `s` ends.
pub open spec fn first_break(s: Seq<char>) -> int {
    choose|k: int| is_first_break(s, k)
}

/// The text in front of the break at `k`, without the carriage return that
/// a line feed may follow.
pub open spec fn line_before(s: Seq<char>, k: int) -> Seq<char> {
    if 0 < k < s.len() && s[k - 1] == '\r' {
        s.subrange(0, k - 1)
    } else {
        s.subrange(0, k)
    }
}

/// The first line of `s`, without its line ending; `None` for empty text.
pub open spec fn first_line_text(s: Seq<char>) -> Option<Seq<char>> {
    if s.len() == 0 {
        None
    } else {
        Some(line_before(s, first_break(s)))
    }
}

/// Only one place is the first break.
pub proof fn lemma_first_break_is_unique(s: Seq<char>, k: int)
    requires
        is_first_break(s, k),
    ensures
        first_break(s) == k,
{
    let c = first_break(s);
    assert(is_first_break(s, c));
    if c < k {
        assert(s[c] == '\n');
    } else if k < c {
        assert(s[k] == '\n');
    }
}

/// The first line of a command's output, without its line ending: the
/// text up to the first line feed, less a carriage return directly in
/// front of that line feed. Empty output has no first line.
pub fn first_line(output: &str) -> (r: Option<String>)
    ensures
        r is None <==> output@.len() == 0,
        r is Some ==> Some(r->Some_0@) == first_line_text(output@),
{
    let n = output.unicode_len();
    if n == 0 {
        return None;
    }
    let mut k: usize = 0;
    while k < n && output.get_char(k) != '\n'
        invariant
            k <= n,
            n == output@.len(),
            forall|j: int| 0 <= j < k ==> output@[j] != '\n',
        decreases n - k,
    {
        k += 1;
    }
    proof {
        lemma_first_break_is_unique(output@, k as int);
    }
    let end = if 0 < k && k < n && output.get_char(k - 1) == '\r' {
        k - 1
    } else {
        k
    };
    Some(String::from_str(output.substring_char(0, end)))
}

} // verus!
