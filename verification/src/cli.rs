//! Command-line request: output format, decision, and the command tokens,
//! split into the package spec and the arguments forwarded after `--`.

use vstd::prelude::*;
use crate::closure::M2Reason;
use crate::contracts::{Decision, SourceContext};
use crate::text::{concat2, has_prefix, join, join_strings, starts_with, str_eq, string_views};

verus! {

/// Arguments accepted by the `safe-npx` command.
#[derive(Clone, Debug, PartialEq, Eq)]
pub struct Cli {
    /// Emit machine-readable JSON for agents and CI.
    pub json: bool,
    /// Print the report without executing anything.
    pub dry_run: bool,
    /// Decision to apply after inspection; `ask` unless the caller chose.
    pub decision: Decision,
    /// Emit a deterministic closure refusal report for fixture and contract tests.
    pub m2_refusal: Option<M2RefusalReason>,
    /// Caller-declared source context; `unknown` unless declared.
    pub source_context: SourceContext,
    /// Command tokens, split into package spec and forwarded args at `--`.
    pub command: Vec<String>,
}

/// Hidden closure refusal reason accepted by the command line.
#[derive(Clone, Copy, Debug, PartialEq, Eq, Structural)]
pub enum M2RefusalReason {
    /// Full dependency or execution closure cannot be proven.
    UnsupportedClosure,
    /// More than one package binary could match the command.
    AmbiguousBin,
    /// No package binary could be selected.
    MissingBin,
    /// Lifecycle script metadata blocks execution.
    LifecycleScriptPresent,
    /// Inspection and execution registry source would differ.
    RegistryPrecedenceMismatch,
    /// Prepared cache identity differs from inspected evidence.
    CacheIdentityMismatch,
    /// Generated shim identity differs from inspected evidence.
    ShimIdentityMismatch,
    /// Non-interactive mode must stop instead of prompting.
    NonInteractiveStop,
}

/// The closure reason a command-line refusal reason stands for.
pub open spec fn refusal_reason_model(reason: M2RefusalReason) -> M2Reason {
    match reason {
        M2RefusalReason::UnsupportedClosure => M2Reason::UnsupportedClosure,
        M2RefusalReason::AmbiguousBin => M2Reason::AmbiguousBin,
        M2RefusalReason::MissingBin => M2Reason::MissingBin,
        M2RefusalReason::LifecycleScriptPresent => M2Reason::LifecycleScriptPresent,
        M2RefusalReason::RegistryPrecedenceMismatch => M2Reason::RegistryPrecedenceMismatch,
        M2RefusalReason::CacheIdentityMismatch => M2Reason::CacheIdentityMismatch,
        M2RefusalReason::ShimIdentityMismatch => M2Reason::ShimIdentityMismatch,
        M2RefusalReason::NonInteractiveStop => M2Reason::NonInteractiveStop,
    }
}

impl From<M2RefusalReason> for M2Reason {
    /// Convert a command-line refusal reason into the closure reason vocabulary.
    fn from(reason: M2RefusalReason) -> (r: Self) {
        match reason {
            M2RefusalReason::UnsupportedClosure => M2Reason::UnsupportedClosure,
            M2RefusalReason::AmbiguousBin => M2Reason::AmbiguousBin,
            M2RefusalReason::MissingBin => M2Reason::MissingBin,
            M2RefusalReason::LifecycleScriptPresent => M2Reason::LifecycleScriptPresent,
            M2RefusalReason::RegistryPrecedenceMismatch => M2Reason::RegistryPrecedenceMismatch,
            M2RefusalReason::CacheIdentityMismatch => M2Reason::CacheIdentityMismatch,
            M2RefusalReason::ShimIdentityMismatch => M2Reason::ShimIdentityMismatch,
            M2RefusalReason::NonInteractiveStop => M2Reason::NonInteractiveStop,
        }
    }
}

impl vstd::std_specs::convert::FromSpecImpl<M2RefusalReason> for M2Reason {
    open spec fn obeys_from_spec() -> bool {
        true
    }

    open spec fn from_spec(reason: M2RefusalReason) -> M2Reason {
        refusal_reason_model(reason)
    }
}

/// The command tokens read as plain text.
pub open spec fn tokens(cli: Cli) -> Seq<Seq<char>> {
    string_views(cli.command@)
}

/// The caller chose the explicit inspect action.
pub open spec fn inspect_action(cmd: Seq<Seq<char>>) -> bool {
    cmd.len() > 0 && cmd[0] == "inspect"@
}

/// The command is an `npm`/`npx` exec shape, classified whole.
pub open spec fn exec_variant(cmd: Seq<Seq<char>>) -> bool {
    cmd.len() > 0 && (cmd[0] == "npm"@ || cmd[0] == "npx"@ || cmd[0] == "npm-exec"@)
}

/// The source-context option of the inspect action, in `=` form.
pub open spec fn source_option_eq() -> Seq<char> {
    "--source-context="@
}

/// Number of tokens the source-context option takes right after the
/// inspect action token: one for `--source-context=V`, two for
/// `--source-context V` (one when the value is missing), none otherwise.
pub open spec fn inspect_option_len(cmd: Seq<Seq<char>>) -> int {
    if inspect_action(cmd) && cmd.len() > 1 {
        if has_prefix(cmd[1], source_option_eq()) {
            1
        } else if cmd[1] == "--source-context"@ {
            if cmd.len() > 2 {
                2
            } else {
                1
            }
        } else {
            0
        }
    } else {
        0
    }
}

/// Number of leading tokens taken by the action and its option.
pub open spec fn action_len(cmd: Seq<Seq<char>>) -> int {
    if inspect_action(cmd) {
        1 + inspect_option_len(cmd)
    } else {
        0
    }
}

/// The tokens after the action token and its option.
pub open spec fn after_action(cmd: Seq<Seq<char>>) -> Seq<Seq<char>> {
    cmd.skip(action_len(cmd))
}

/// The value given to the inspect action's source-context option (empty when
/// it is missing).
pub open spec fn inspect_option_value(cmd: Seq<Seq<char>>) -> Option<Seq<char>> {
    if inspect_option_len(cmd) == 0 {
        None
    } else if has_prefix(cmd[1], source_option_eq()) {
        Some(cmd[1].subrange(source_option_eq().len() as int, cmd[1].len() as int))
    } else if cmd.len() > 2 {
        Some(cmd[2])
    } else {
        Some(Seq::empty())
    }
}

/// The source context a value names.
pub open spec fn source_context_named(v: Seq<char>) -> Option<SourceContext> {
    if v == "manual_terminal"@ {
        Some(SourceContext::ManualTerminal)
    } else if v == "docs_snippet"@ {
        Some(SourceContext::DocsSnippet)
    } else if v == "agent_skill"@ {
        Some(SourceContext::AgentSkill)
    } else if v == "ci"@ {
        Some(SourceContext::Ci)
    } else if v == "unknown"@ {
        Some(SourceContext::Unknown)
    } else {
        None
    }
}

/// The declared source context: the inspect action's option when given,
/// otherwise the global one; none when the option names no context.
pub open spec fn source_context_model(cli: Cli) -> Option<SourceContext> {
    match inspect_option_value(tokens(cli)) {
        Some(v) => source_context_named(v),
        None => Some(cli.source_context),
    }
}

/// Parse a source-context value.
pub fn parse_source_context(v: &str) -> (r: Option<SourceContext>)
    ensures
        r == source_context_named(v@),
{
    if str_eq(v, "manual_terminal") {
        Some(SourceContext::ManualTerminal)
    } else if str_eq(v, "docs_snippet") {
        Some(SourceContext::DocsSnippet)
    } else if str_eq(v, "agent_skill") {
        Some(SourceContext::AgentSkill)
    } else if str_eq(v, "ci") {
        Some(SourceContext::Ci)
    } else if str_eq(v, "unknown") {
        Some(SourceContext::Unknown)
    } else {
        None
    }
}

/// Index of the first `--`, or the length when there is none.
pub open spec fn separator_index(toks: Seq<Seq<char>>) -> int
    decreases toks.len(),
{
    if toks.len() == 0 {
        0
    } else if toks[0] == "--"@ {
        0
    } else {
        1 + separator_index(toks.skip(1))
    }
}

/// Tokens that name the package spec: those before `--`.
pub open spec fn spec_tokens_model(cmd: Seq<Seq<char>>) -> Seq<Seq<char>> {
    let t = after_action(cmd);
    t.take(separator_index(t))
}

/// The raw package spec: the whole command for exec shapes, otherwise the
/// spec tokens, joined with single spaces.
pub open spec fn raw_package_spec_model(cmd: Seq<Seq<char>>) -> Seq<char> {
    if exec_variant(cmd) {
        join(cmd, " "@)
    } else {
        join(spec_tokens_model(cmd), " "@)
    }
}

/// Forwarded arguments: the tokens after the first `--`; none for exec shapes.
pub open spec fn forwarded_args_model(cmd: Seq<Seq<char>>) -> Seq<Seq<char>> {
    let t = after_action(cmd);
    if exec_variant(cmd) || separator_index(t) >= t.len() {
        Seq::empty()
    } else {
        t.skip(separator_index(t) + 1)
    }
}

proof fn lemma_separator_index_bounds(toks: Seq<Seq<char>>)
    ensures
        0 <= separator_index(toks) <= toks.len(),
        separator_index(toks) < toks.len() ==> toks[separator_index(toks)] == "--"@,
        forall|j: int| 0 <= j < separator_index(toks) ==> toks[j] != "--"@,
    decreases toks.len(),
{
    if toks.len() > 0 && toks[0] != "--"@ {
        lemma_separator_index_bounds(toks.skip(1));
        assert forall|j: int| 0 <= j < separator_index(toks) implies toks[j] != "--"@ by {
            if j > 0 {
                assert(toks[j] == toks.skip(1)[j - 1]);
            }
        }
    }
}

proof fn lemma_separator_index_first(toks: Seq<Seq<char>>, k: int)
    requires
        0 <= k <= toks.len(),
        forall|j: int| 0 <= j < k ==> toks[j] != "--"@,
        k < toks.len() ==> toks[k] == "--"@,
    ensures
        separator_index(toks) == k,
    decreases toks.len(),
{
    if toks.len() > 0 && k > 0 {
        assert forall|j: int| 0 <= j < k - 1 implies toks.skip(1)[j] != "--"@ by {
            assert(toks.skip(1)[j] == toks[j + 1]);
        }
        if k - 1 < toks.skip(1).len() {
            assert(toks.skip(1)[k - 1] == toks[k]);
        }
        lemma_separator_index_first(toks.skip(1), k - 1);
    }
}

impl Cli {
    /// Number of leading tokens taken by the action and its option.
    fn action_len(&self) -> (r: usize)
        ensures
            r == action_len(tokens(*self)),
            r <= self.command@.len(),
    {
        if !self.is_inspect_action() {
            return 0;
        }
        let n = self.command.len();
        if n < 2 {
            return 1;
        }
        let t = self.command[1].as_str();
        if starts_with(t, "--source-context=") {
            2
        } else if str_eq(t, "--source-context") {
            if n > 2 {
                3
            } else {
                2
            }
        } else {
            1
        }
    }

    /// The declared source context; an error message when the inspect
    /// action's option names no source context.
    pub fn source_context_choice(&self) -> (r: Result<SourceContext, String>)
        ensures
            match (r, source_context_model(*self)) {
                (Ok(a), Some(b)) => a == b,
                (Err(_), None) => true,
                _ => false,
            },
    {
        let k = self.action_len();
        if k < 2 {
            return Ok(self.source_context);
        }
        let t = self.command[1].as_str();
        let value: &str = if starts_with(t, "--source-context=") {
            proof {
                reveal_strlit("--source-context=");
            }
            t.substring_char(17, t.unicode_len())
        } else if k == 3 {
            self.command[2].as_str()
        } else {
            ""
        };
        proof {
            reveal_strlit("");
            reveal_strlit("--source-context=");
            let cmd = tokens(*self);
            assert(cmd[1] == t@);
            if k == 3 {
                assert(cmd[2] == self.command@[2]@);
            }
            assert(inspect_option_value(cmd) == Some(value@));
        }
        match parse_source_context(value) {
            Some(sc) => Ok(sc),
            None => {
                let head = concat2("error: invalid value '", value);
                Err(concat2(
                    head.as_str(),
                    "' for '--source-context <SOURCE_CONTEXT>'\n  [possible values: manual_terminal, docs_snippet, agent_skill, ci, unknown]\n",
                ))
            },
        }
    }

    /// Return true when the caller selected the explicit inspect action.
    pub fn is_inspect_action(&self) -> (r: bool)
        ensures
            r == inspect_action(tokens(*self)),
    {
        self.command.len() > 0 && str_eq(self.command[0].as_str(), "inspect")
    }

    /// Return true when the raw command is an unsupported npm/npx exec shape.
    fn is_exec_variant_command(&self) -> (r: bool)
        ensures
            r == exec_variant(tokens(*self)),
    {
        self.command.len() > 0 && (str_eq(self.command[0].as_str(), "npm") || str_eq(
            self.command[0].as_str(),
            "npx",
        ) || str_eq(self.command[0].as_str(), "npm-exec"))
    }

    /// Number of leading action tokens, and the index of the first `--`
    /// after them (the length when there is none).
    fn split_points(&self) -> (r: (usize, usize))
        ensures
            r.0 == action_len(tokens(*self)),
            r.0 <= r.1 <= self.command@.len(),
            r.1 - r.0 == separator_index(after_action(tokens(*self))),
    {
        let ghost cmd = tokens(*self);
        let start: usize = self.action_len();
        let ghost t = after_action(cmd);
        assert(t == cmd.skip(start as int));
        let mut i: usize = start;
        while i < self.command.len() && !str_eq(self.command[i].as_str(), "--")
            invariant
                start <= i <= self.command@.len(),
                cmd == tokens(*self),
                t == cmd.skip(start as int),
                cmd.len() == self.command@.len(),
                forall|j: int| 0 <= j < i - start ==> t[j] != "--"@,
            decreases self.command@.len() - i,
        {
            assert(t[i - start] == self.command@[i as int]@);
            i = i + 1;
        }
        proof {
            if i < self.command@.len() {
                assert(t[i - start] == self.command@[i as int]@);
            }
            lemma_separator_index_first(t, i - start);
        }
        (start, i)
    }

    /// Return the raw package spec string that should be classified.
    pub fn raw_package_spec(&self) -> (r: String)
        ensures
            r@ == raw_package_spec_model(tokens(*self)),
    {
        if self.is_exec_variant_command() {
            return join_strings(&self.command, " ");
        }
        let (start, end) = self.split_points();
        let mut spec_tokens: Vec<String> = Vec::new();
        let mut i: usize = start;
        while i < end
            invariant
                start <= i <= end <= self.command@.len(),
                string_views(spec_tokens@) == tokens(*self).subrange(start as int, i as int),
            decreases end - i,
        {
            let t = self.command[i].clone();
            proof {
                assert(string_views(spec_tokens@.push(t)) =~= string_views(spec_tokens@).push(t@));
                assert(tokens(*self).subrange(start as int, i + 1) =~= tokens(*self).subrange(
                    start as int,
                    i as int,
                ).push(t@));
            }
            spec_tokens.push(t);
            i = i + 1;
        }
        assert(spec_tokens_model(tokens(*self)) =~= tokens(*self).subrange(
            start as int,
            end as int,
        ));
        join_strings(&spec_tokens, " ")
    }

    /// Return arguments that should be passed through after classification.
    pub fn forwarded_args(&self) -> (r: Vec<String>)
        ensures
            string_views(r@) == forwarded_args_model(tokens(*self)),
    {
        if self.is_exec_variant_command() {
            let v: Vec<String> = Vec::new();
            assert(string_views(v@) =~= Seq::<Seq<char>>::empty());
            return v;
        }
        let (start, end) = self.split_points();
        let mut out: Vec<String> = Vec::new();
        if end >= self.command.len() {
            assert(string_views(out@) =~= Seq::<Seq<char>>::empty());
            return out;
        }
        let mut i: usize = end + 1;
        while i < self.command.len()
            invariant
                end + 1 <= i <= self.command@.len(),
                string_views(out@) == tokens(*self).subrange(end + 1, i as int),
            decreases self.command@.len() - i,
        {
            let t = self.command[i].clone();
            proof {
                assert(string_views(out@.push(t)) =~= string_views(out@).push(t@));
                assert(tokens(*self).subrange(end + 1, i + 1) =~= tokens(*self).subrange(
                    end + 1,
                    i as int,
                ).push(t@));
            }
            out.push(t);
            i = i + 1;
        }
        assert(forwarded_args_model(tokens(*self)) =~= tokens(*self).subrange(
            end + 1,
            self.command@.len() as int,
        ));
        out
    }
}

/// Outside exec shapes, the tokens after the action are the spec tokens,
/// then (when present) `--` and the forwarded arguments: nothing is lost or
/// duplicated.
pub proof fn law_command_tokens_partition(cmd: Seq<Seq<char>>)
    requires
        !exec_variant(cmd),
    ensures
        separator_index(after_action(cmd)) < after_action(cmd).len() ==> after_action(cmd)
            == spec_tokens_model(cmd) + seq!["--"@] + forwarded_args_model(cmd),
        separator_index(after_action(cmd)) >= after_action(cmd).len() ==> after_action(cmd)
            == spec_tokens_model(cmd) && forwarded_args_model(cmd).len() == 0,
{
    let t = after_action(cmd);
    lemma_separator_index_bounds(t);
    let k = separator_index(t);
    if k < t.len() {
        assert(t =~= t.take(k) + seq!["--"@] + t.skip(k + 1));
    } else {
        assert(t =~= t.take(k));
    }
}

} // verus!
