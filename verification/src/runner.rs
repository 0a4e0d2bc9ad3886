//! The process-runner model.
//!
//! The library never spawns a process itself.  The embedding application
//! launches the tool named by a [`VcsCmd`] and reports what happened as a
//! [`SpawnOutcome`]; [`run_outcome`] then classifies that report exactly as
//! the history resolver expects: distinguishing a missing tool, a launch
//! failure, a non-zero exit and a clean run, and choosing the error text
//! from stderr, stdout or a synthesized status line.

use vstd::prelude::*;

use crate::messages::exit_prefix_msg;
use crate::messages::m_exit_prefix;
use crate::messages::m_missing;
use crate::messages::m_run_prefix;
use crate::messages::missing_msg;
use crate::messages::run_prefix_msg;
use crate::model::ToolKind;
use crate::text::concat_bytes;
use crate::text::spec_trim;
use crate::text::trim;

verus! {

/// A request to run one command-line tool.
#[derive(Debug)]
pub struct VcsCmd {
    pub tool: ToolKind,
    pub args: Vec<Vec<u8>>,
    pub cwd: Vec<u8>,
}

/// Spec-level image of `VcsCmd`.
pub struct VcsCmdV {
    pub tool: ToolKind,
    pub args: Seq<Seq<u8>>,
    pub cwd: Seq<u8>,
}

impl View for VcsCmd {
    type V = VcsCmdV;

    open spec fn view(&self) -> VcsCmdV {
        VcsCmdV { tool: self.tool, args: self.args.deep_view(), cwd: self.cwd@ }
    }
}

/// A finished process: its exit state and captured output.
#[derive(Debug)]
pub struct SpawnExit {
    pub success: bool,
    pub status: Vec<u8>,
    pub stdout: Vec<u8>,
    pub stderr: Vec<u8>,
}

/// What happened when the application tried to launch a tool.
#[derive(Debug)]
pub enum SpawnOutcome {
    /// The tool is not present on the execution search path.
    ToolMissing,
    /// The launch itself failed for another reason; the payload is the
    /// platform's error text.
    LaunchFailed(Vec<u8>),
    /// The tool ran to completion.
    Exited(SpawnExit),
}

/// Spec-level image of `SpawnExit`.
pub struct SpawnExitV {
    pub success: bool,
    pub status: Seq<u8>,
    pub stdout: Seq<u8>,
    pub stderr: Seq<u8>,
}

/// Spec-level image of `SpawnOutcome`.
pub enum SpawnOutcomeV {
    ToolMissing,
    LaunchFailed(Seq<u8>),
    Exited(SpawnExitV),
}

impl View for SpawnExit {
    type V = SpawnExitV;

    open spec fn view(&self) -> SpawnExitV {
        SpawnExitV {
            success: self.success,
            status: self.status@,
            stdout: self.stdout@,
            stderr: self.stderr@,
        }
    }
}

impl View for SpawnOutcome {
    type V = SpawnOutcomeV;

    open spec fn view(&self) -> SpawnOutcomeV {
        match self {
            SpawnOutcome::ToolMissing => SpawnOutcomeV::ToolMissing,
            SpawnOutcome::LaunchFailed(e) => SpawnOutcomeV::LaunchFailed(e@),
            SpawnOutcome::Exited(x) => SpawnOutcomeV::Exited(x@),
        }
    }
}

/// One runner reply, as the probes consume it: the tool's standard output
/// on a clean run, or the classified error text.
pub type Reply = Result<Vec<u8>, Vec<u8>>;

/// Spec-level image of `Reply`.
pub type ReplyV = Result<Seq<u8>, Seq<u8>>;

/// Spec-level image of one reply.
pub open spec fn reply_view(r: Reply) -> ReplyV {
    match r {
        Result::Ok(o) => Result::Ok(o@),
        Result::Err(e) => Result::Err(e@),
    }
}

/// Spec-level image of a reply transcript.
pub open spec fn replies_view(rs: Seq<Reply>) -> Seq<ReplyV> {
    rs.map_values(|r: Reply| reply_view(r))
}

/// The error text chosen for a non-zero exit: trimmed stderr when present,
/// else (for the tools that report errors on stdout) trimmed stdout, else a
/// synthesized status line.
pub open spec fn spec_exit_error(tool: ToolKind, x: SpawnExitV) -> Seq<u8> {
    if spec_trim(x.stderr).len() > 0 {
        spec_trim(x.stderr)
    } else if tool != ToolKind::Git && spec_trim(x.stdout).len() > 0 {
        spec_trim(x.stdout)
    } else {
        m_exit_prefix(tool) + x.status
    }
}

/// The classification of one spawn outcome.
pub open spec fn spec_run_outcome(tool: ToolKind, o: SpawnOutcomeV) -> ReplyV {
    match o {
        SpawnOutcomeV::ToolMissing => Result::Err(m_missing(tool)),
        SpawnOutcomeV::LaunchFailed(e) => Result::Err(m_run_prefix(tool) + e),
        SpawnOutcomeV::Exited(x) => if x.success {
            Result::Ok(x.stdout)
        } else {
            Result::Err(spec_exit_error(tool, x))
        },
    }
}

/// Classifies a spawn outcome into the reply a probe consumes.
pub fn run_outcome(tool: ToolKind, o: SpawnOutcome) -> (r: Reply)
    ensures
        reply_view(r) == spec_run_outcome(tool, o@),
{
    match o {
        SpawnOutcome::ToolMissing => Result::Err(missing_msg(tool)),
        SpawnOutcome::LaunchFailed(e) => {
            let prefix = run_prefix_msg(tool);
            Result::Err(concat_bytes(&prefix, &e))
        },
        SpawnOutcome::Exited(x) => {
            if x.success {
                Result::Ok(x.stdout)
            } else {
                let stderr_t = trim(&x.stderr);
                if stderr_t.len() > 0 {
                    return Result::Err(stderr_t);
                }
                if !matches!(tool, ToolKind::Git) {
                    let stdout_t = trim(&x.stdout);
                    if stdout_t.len() > 0 {
                        return Result::Err(stdout_t);
                    }
                }
                let prefix = exit_prefix_msg(tool);
                Result::Err(concat_bytes(&prefix, &x.status))
            }
        },
    }
}

/// Clones one reply.
pub fn clone_reply(r: &Reply) -> (c: Reply)
    ensures
        reply_view(c) == reply_view(*r),
{
    match r {
        Result::Ok(o) => {
            let co = o.clone();
            proof {
                assert(co@ =~= o@);
            }
            Result::Ok(co)
        },
        Result::Err(e) => {
            let ce = e.clone();
            proof {
                assert(ce@ =~= e@);
            }
            Result::Err(ce)
        },
    }
}

/// Copies the tail of a reply transcript, from `base` on.
pub fn replies_from(rs: &Vec<Reply>, base: usize) -> (r: Vec<Reply>)
    requires
        base <= rs@.len(),
    ensures
        replies_view(r@) == replies_view(rs@).skip(base as int),
{
    let mut r: Vec<Reply> = Vec::new();
    let mut i: usize = base;
    while i < rs.len()
        invariant
            base <= i <= rs@.len(),
            replies_view(r@) == replies_view(rs@).subrange(base as int, i as int),
        decreases rs.len() - i,
    {
        let c = clone_reply(&rs[i]);
        let ghost pre = replies_view(r@);
        r.push(c);
        proof {
            assert(replies_view(r@) =~= pre.push(reply_view(rs@[i as int])));
            assert(replies_view(rs@).subrange(base as int, i + 1 as int) =~= replies_view(
                rs@,
            ).subrange(base as int, i as int).push(reply_view(rs@[i as int])));
        }
        i = i + 1;
    }
    proof {
        assert(replies_view(rs@).subrange(base as int, rs@.len() as int) =~= replies_view(
            rs@,
        ).skip(base as int));
    }
    r
}

} // verus!
