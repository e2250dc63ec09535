//! Process supervisor: owns the logical state of the single supervised
//! process (its pid slot, the remembered configuration, the safe-mode
//! state, the metadata record and the status tracker) and decides every
//! lifecycle transition. The surrounding runtime performs the actions a
//! decision calls for (spawn, signal, file removal, publication) and
//! reports the outcomes back; at most one process is tracked at any time,
//! and a stop always empties the slot, whatever became of the kill signal.

use vstd::prelude::*;

use crate::config::{spec_build_args, MinerConfig};
use crate::meta::{spec_meta_step, MetaView, MinerMeta};
use crate::parse::{parse_event, spec_parse_event, MinerEvent};
use crate::safe_mode::{
    approaching_any, in_any_range, past_all_ranges, spec_enable_args, spec_remove_args,
    troublesome_ranges, SafeModeState,
};
use crate::status::StatusTracker;
use crate::text::{contains_ci, find_ci_from, has_ci, run_end, scan_run, spec_parse_u64, CharClass};

verus! {

/// Why a start was refused before a process was spawned, or how the spawn
/// itself failed.
#[derive(Clone, Debug)]
pub enum StartError {
    /// The selected chain's required binary is not released yet.
    UnsupportedChain,
    /// No usable rewards account was available.
    MissingAccount,
    /// The node identity key file was not available.
    MissingNodeKey,
    /// The runtime could not spawn the executable.
    Spawn { message: String },
}

impl StartError {
    /// A descriptive message for the caller.
    pub fn message(&self) -> (m: String)
        ensures
            (match self {
                StartError::UnsupportedChain => m@
                    == "Heisenberg is not available yet (requires quantus-node 0.1.6-98ceb8de72a)"@,
                StartError::MissingAccount => m@ == "no usable rewards account available"@,
                StartError::MissingNodeKey => m@ == "node identity key file not available"@,
                StartError::Spawn { message } => m@ == message@,
            }),
    {
        match self {
            StartError::UnsupportedChain => {
                "Heisenberg is not available yet (requires quantus-node 0.1.6-98ceb8de72a)".to_owned()
            },
            StartError::MissingAccount => "no usable rewards account available".to_owned(),
            StartError::MissingNodeKey => "node identity key file not available".to_owned(),
            StartError::Spawn { message } => message.clone(),
        }
    }
}

/// Why a remediation workflow (repair or unlock) was refused.
#[derive(Clone, Copy, Debug)]
pub enum RemediationError {
    /// No configuration is remembered from a prior session.
    NoPriorSession,
}

impl RemediationError {
    /// A descriptive message for the caller.
    pub fn message(&self) -> (m: String)
        ensures
            m@ == "no previous miner configuration available"@,
    {
        "no previous miner configuration available".to_owned()
    }
}

/// What one stderr line asks the runtime to do.
pub struct StderrOutcome {
    /// A structured event to publish, if the line yielded one.
    pub event: Option<MinerEvent>,
    /// Whether the metadata record changed and should be republished.
    pub meta_changed: bool,
    /// Whether the line carries the database-corruption signature; the
    /// supervisor never auto-repairs, it only surfaces the advisory.
    pub corruption: bool,
    /// A safe-mode toggle recorded by this line, for an advisory notice.
    pub scheduled: Option<bool>,
}

/// The height named by an `importing block #N` line, when the digit run
/// after the marker parses as a `u64`.
pub open spec fn spec_observed_block(line: Seq<char>) -> Option<u64> {
    match find_ci_from(line, "importing block #"@, 0) {
        Some(i) => {
            let a = i + "importing block #"@.len();
            spec_parse_u64(line.subrange(a, run_end(line, a, CharClass::Digit)))
        },
        None => None,
    }
}

/// The troublesome-range table consulted for a chain.
pub open spec fn spec_ranges_for(chain: Seq<char>) -> Seq<(u64, u64)> {
    if chain == "resonance"@ {
        seq![(13311u64, 13360u64)]
    } else {
        Seq::<(u64, u64)>::empty()
    }
}

/// How one line moves the safe-mode state: a block height observed while a
/// session's chain is known feeds the state machine, anything else leaves
/// it alone.
pub open spec fn spec_safe_step(
    s: SafeModeState,
    last_chain: Option<Seq<char>>,
    line: Seq<char>,
) -> (SafeModeState, Option<bool>) {
    match spec_observed_block(line) {
        Some(b) => match last_chain {
            Some(ch) => {
                let ranges = spec_ranges_for(ch);
                if !s.active && (in_any_range(ranges, b) || approaching_any(ranges, b)) {
                    (SafeModeState { active: s.active, pending: Some(true) }, Some(true))
                } else if s.active && past_all_ranges(ranges, b) {
                    (SafeModeState { active: s.active, pending: Some(false) }, Some(false))
                } else {
                    (s, None)
                }
            },
            None => (s, None),
        },
        None => (s, None),
    }
}

/// The corruption signature watched for in stderr output.
pub open spec fn corruption_marker() -> Seq<char> {
    "invalid argument: column families not opened"@
}

/// The supervisor's whole mutable state: one guarded instance of it stands
/// behind a mutex in the surrounding runtime.
pub struct Supervisor {
    /// The pid of the supervised child, while one is believed alive. At
    /// most one process is ever tracked.
    pub running: Option<u32>,
    /// The configuration of the last successfully prepared start.
    pub last_cfg: Option<MinerConfig>,
    /// The safe-mode state machine and its pending-toggle mailbox.
    pub safe: SafeModeState,
    /// The metadata record of the current session.
    pub meta: MinerMeta,
    /// The status tracker of the current session.
    pub status: StatusTracker,
}

impl Supervisor {
    /// The chain selector of the remembered configuration, if any.
    pub open spec fn last_chain(&self) -> Option<Seq<char>> {
        match self.last_cfg {
            Some(c) => Some(c@.chain),
            None => None,
        }
    }

    /// A supervisor with nothing running and nothing remembered.
    pub fn new() -> (s: Supervisor)
        ensures
            (s.running is None),
            (s.last_cfg is None),
            s.safe.active == false,
            (s.safe.pending is None),
    {
        Supervisor {
            running: None,
            last_cfg: None,
            safe: SafeModeState::new(),
            meta: MinerMeta::empty(),
            status: StatusTracker::new(),
        }
    }

    /// Stops the session: hands the tracked pid (if any) to the runtime
    /// for termination and unconditionally empties the slot, so that a
    /// subsequent start is unblocked even if the kill itself fails. On an
    /// already-stopped supervisor this is a no-op: it returns nothing to
    /// kill and changes nothing.
    pub fn stop(&mut self) -> (kill: Option<u32>)
        ensures
            kill == old(self).running,
            (final(self).running is None),
            final(self).last_cfg == old(self).last_cfg,
            final(self).safe == old(self).safe,
            final(self).meta == old(self).meta,
            final(self).status == old(self).status,
    {
        let kill = self.running;
        self.running = None;
        kill
    }

    /// Validates a start request against its prerequisites and, when they
    /// hold, commits to the session: remembers the configuration, resets
    /// the per-session state, and returns the argument vector to spawn
    /// with. The caller must already have stopped any prior process (the
    /// pid slot is empty); the spawned pid is reported via
    /// [`Supervisor::note_spawned`].
    pub fn prepare_start(
        &mut self,
        cfg: &MinerConfig,
        account_address: Option<&String>,
        node_key_path: Option<&String>,
    ) -> (r: Result<Vec<String>, StartError>)
        requires
            (old(self).running is None),
        ensures
            (final(self).running is None),
            (match r {
                Result::Err(e) => {
                    &&& final(self).last_cfg == old(self).last_cfg
                    &&& final(self).safe == old(self).safe
                    &&& final(self).meta == old(self).meta
                    &&& final(self).status == old(self).status
                    &&& (match e {
                        StartError::MissingAccount => account_address is None,
                        StartError::UnsupportedChain => account_address is Some && cfg@.chain
                            == "heisenberg"@,
                        StartError::MissingNodeKey => account_address is Some && cfg@.chain
                            != "heisenberg"@ && node_key_path is None,
                        StartError::Spawn { .. } => false,
                    })
                },
                Result::Ok(args) => {
                    &&& account_address is Some
                    &&& cfg@.chain != "heisenberg"@
                    &&& node_key_path is Some
                    &&& args.deep_view() == spec_build_args(
                        (if cfg@.chain == "resonance"@ {
                            "live_resonance"@
                        } else {
                            cfg@.chain
                        }),
                        node_key_path->Some_0@,
                        account_address->Some_0@,
                        cfg@.extra_args,
                    )
                    &&& (match final(self).last_cfg {
                        Some(c) => c@ == cfg@,
                        None => false,
                    })
                    &&& final(self).safe.active == false
                    &&& (final(self).safe.pending is None)
                    &&& final(self).meta@ == (MetaView {
                        binary: Some(cfg@.binary_path),
                        chain: Some(cfg@.chain),
                        rewards_address: Some(account_address->Some_0@),
                        version: None,
                        chain_spec: None,
                        node_name: None,
                        role: None,
                        database: None,
                        local_identity: None,
                        jsonrpc_addr: None,
                        prometheus_addr: None,
                        highest_known_block: None,
                        os: None,
                        arch: None,
                        target: None,
                        cpu: None,
                        cpu_cores: None,
                        memory: None,
                        kernel: None,
                        distro: None,
                        vm: None,
                    })
                    &&& (final(self).status.last_published is None)
                },
            }),
    {
        let address = match account_address {
            Some(a) => a,
            None => {
                return Err(StartError::MissingAccount);
            },
        };
        let cli_chain = match crate::config::cli_chain_for_ui(cfg.chain.as_str()) {
            Some(c) => c,
            None => {
                return Err(StartError::UnsupportedChain);
            },
        };
        let key_path = match node_key_path {
            Some(k) => k,
            None => {
                return Err(StartError::MissingNodeKey);
            },
        };
        let args = crate::config::build_args(
            cli_chain,
            key_path.as_str(),
            address.as_str(),
            &cfg.extra_args,
        );
        self.last_cfg = Some(cfg.duplicate());
        self.safe = SafeModeState::new();
        self.meta = MinerMeta::for_start(
            cfg.binary_path.as_str(),
            cfg.chain.as_str(),
            address.as_str(),
        );
        self.status = StatusTracker::new();
        Ok(args)
    }

    /// Records the pid of the child the runtime just spawned. The slot
    /// must be empty: the supervisor never tracks two processes.
    pub fn note_spawned(&mut self, pid: u32)
        requires
            (old(self).running is None),
        ensures
            final(self).running == Some(pid),
            final(self).last_cfg == old(self).last_cfg,
            final(self).safe == old(self).safe,
            final(self).meta == old(self).meta,
            final(self).status == old(self).status,
    {
        self.running = Some(pid);
    }

    /// Digests one stderr line: derives a structured event, feeds the
    /// safe-mode state machine from any observed import height, folds the
    /// line into the metadata record, and watches for the
    /// database-corruption signature.
    pub fn handle_stderr_line(&mut self, line: &str) -> (out: StderrOutcome)
        ensures
            (match out.event {
                Some(ev) => spec_parse_event(line@) == Some(ev@),
                None => (spec_parse_event(line@) is None),
            }),
            final(self).meta@ == spec_meta_step(old(self).meta@, line@),
            out.meta_changed == (final(self).meta@ != old(self).meta@),
            out.corruption == contains_ci(line@, corruption_marker()),
            (final(self).safe, out.scheduled) == spec_safe_step(
                old(self).safe,
                old(self).last_chain(),
                line@,
            ),
            final(self).running == old(self).running,
            final(self).last_cfg == old(self).last_cfg,
            final(self).status == old(self).status,
    {
        let event = parse_event(line);

        let mut scheduled: Option<bool> = None;
        proof {
            reveal_strlit("importing block #");
        }
        let n = line.unicode_len();
        match crate::text::find_ci(line, "importing block #") {
            Some(i) => {
                let a = i + 17;
                let d = scan_run(line, a, CharClass::Digit);
                let num = line.substring_char(a, d);
                match crate::text::parse_u64_digits(num) {
                    Some(b) => {
                        let ranges = match &self.last_cfg {
                            Some(c) => Some(troublesome_ranges(c.chain.as_str())),
                            None => None,
                        };
                        match ranges {
                            Some(rs) => {
                                scheduled = self.safe.observe_block(b, &rs);
                            },
                            None => {},
                        }
                    },
                    None => {},
                }
            },
            None => {},
        }

        let meta_changed = crate::meta::update_meta_from_line(&mut self.meta, line);
        let corruption = has_ci(line, "invalid argument: column families not opened");
        StderrOutcome { event, meta_changed, corruption, scheduled }
    }

    /// Takes the pending safe-mode toggle, if one was recorded.
    pub fn drain_pending(&mut self) -> (r: Option<bool>)
        ensures
            r == old(self).safe.pending,
            (final(self).safe.pending is None),
            final(self).safe.active == old(self).safe.active,
            final(self).running == old(self).running,
            final(self).last_cfg == old(self).last_cfg,
            final(self).meta == old(self).meta,
            final(self).status == old(self).status,
    {
        self.safe.drain()
    }

    /// Decides how to execute a safe-mode toggle: a no-op when the
    /// requested state already holds, an error without a remembered
    /// configuration, else the remembered configuration with its extra
    /// arguments rewritten, for the runtime to restart with. The `active`
    /// flag is only marked once the restart succeeded, via
    /// [`Supervisor::note_safe_mode`].
    pub fn plan_safe_mode(&self, enable: bool) -> (r: Result<
        Option<MinerConfig>,
        RemediationError,
    >)
        ensures
            (match r {
                Result::Ok(None) => enable == self.safe.active,
                Result::Ok(Some(cfg)) => {
                    &&& enable != self.safe.active
                    &&& (match self.last_cfg {
                        Some(c) => {
                            &&& cfg@.chain == c@.chain
                            &&& cfg@.rewards_address == c@.rewards_address
                            &&& cfg@.binary_path == c@.binary_path
                            &&& cfg@.log_to_file == c@.log_to_file
                            &&& cfg@.extra_args == (if enable {
                                spec_enable_args(c@.extra_args)
                            } else {
                                spec_remove_args(c@.extra_args)
                            })
                        },
                        None => false,
                    })
                },
                Result::Err(e) => enable != self.safe.active && (self.last_cfg is None),
            }),
    {
        if enable == self.safe.active {
            return Ok(None);
        }
        let mut cfg = match &self.last_cfg {
            Some(c) => c.duplicate(),
            None => {
                return Err(RemediationError::NoPriorSession);
            },
        };
        if enable {
            crate::safe_mode::add_max_blocks_arg(&mut cfg.extra_args);
        } else {
            crate::safe_mode::remove_max_blocks_arg(&mut cfg.extra_args);
        }
        Ok(Some(cfg))
    }

    /// Marks the safe-mode flag after the runtime completed a toggle's
    /// restart.
    pub fn note_safe_mode(&mut self, enable: bool)
        ensures
            final(self).safe.active == enable,
            final(self).safe.pending == old(self).safe.pending,
            final(self).running == old(self).running,
            final(self).last_cfg == old(self).last_cfg,
            final(self).meta == old(self).meta,
            final(self).status == old(self).status,
    {
        self.safe.active = enable;
    }

    /// Decides a repair: with a remembered configuration it names the
    /// database directory to wipe (under the node's base data directory)
    /// and the configuration to restart with; without one it fails.
    pub fn plan_repair(&self, base: &str) -> (r: Result<(String, MinerConfig), RemediationError>)
        ensures
            (match r {
                Result::Ok((db_path, cfg)) => (match self.last_cfg {
                    Some(c) => db_path@ == base@ + "/chains/"@ + c@.chain + "/db/full"@ && cfg@
                        == c@,
                    None => false,
                }),
                Result::Err(e) => self.last_cfg is None,
            }),
    {
        match &self.last_cfg {
            Some(c) => {
                let chain_id = crate::node_key::chain_id_for_ui(c.chain.as_str());
                let db_path = crate::node_key::db_path_for_chain(base, chain_id);
                Ok((db_path, c.duplicate()))
            },
            None => Err(RemediationError::NoPriorSession),
        }
    }

    /// Decides an unlock: with a remembered configuration it names the
    /// lock file to remove (absence of which is not an error) and the
    /// configuration to restart with; without one it fails.
    pub fn plan_unlock(&self, base: &str) -> (r: Result<(String, MinerConfig), RemediationError>)
        ensures
            (match r {
                Result::Ok((lock_path, cfg)) => (match self.last_cfg {
                    Some(c) => lock_path@ == base@ + "/chains/"@ + c@.chain + "/db/full/LOCK"@
                        && cfg@ == c@,
                    None => false,
                }),
                Result::Err(e) => self.last_cfg is None,
            }),
    {
        match &self.last_cfg {
            Some(c) => {
                let chain_id = crate::node_key::chain_id_for_ui(c.chain.as_str());
                let lock_path = crate::node_key::lock_path_for_chain(base, chain_id);
                Ok((lock_path, c.duplicate()))
            },
            None => Err(RemediationError::NoPriorSession),
        }
    }
}

// --- the lifecycle law ---

/// One lifecycle transition of the pid slot, as the supervisor's
/// operations perform them: a stop empties the slot (its ensures does not
/// depend on whether the kill signal succeeded), a successful start
/// supersedes whatever was tracked, a failed start leaves nothing
/// tracked.
pub enum SessionOp {
    Stop,
    StartOk { pid: u32 },
    StartFail,
}

pub open spec fn step_running(r: Option<u32>, op: SessionOp) -> Option<u32> {
    match op {
        SessionOp::Stop => None,
        SessionOp::StartOk { pid } => Some(pid),
        SessionOp::StartFail => None,
    }
}

pub open spec fn run_ops(r: Option<u32>, ops: Seq<SessionOp>) -> Option<u32>
    decreases ops.len(),
{
    if ops.len() == 0 {
        r
    } else {
        run_ops(step_running(r, ops[0]), ops.skip(1))
    }
}

proof fn lemma_run_ops_push(r: Option<u32>, ops: Seq<SessionOp>, op: SessionOp)
    ensures
        run_ops(r, ops.push(op)) == step_running(run_ops(r, ops), op),
    decreases ops.len(),
{
    if ops.len() == 0 {
        let t = ops.push(op);
        assert(t.len() == 1);
        assert(t[0] == op);
        assert(t.skip(1) =~= Seq::<SessionOp>::empty());
        assert(run_ops(r, t) == run_ops(step_running(r, op), t.skip(1)));
        assert(run_ops(step_running(r, op), t.skip(1)) == step_running(r, op));
        assert(run_ops(r, ops) == r);
    } else {
        let t = ops.push(op);
        assert(t.len() == ops.len() + 1);
        assert(t[0] == ops[0]);
        assert(t.skip(1) =~= ops.skip(1).push(op));
        lemma_run_ops_push(step_running(r, ops[0]), ops.skip(1), op);
        assert(run_ops(r, t) == run_ops(step_running(r, ops[0]), t.skip(1)));
        assert(run_ops(step_running(r, ops[0]), ops.skip(1).push(op)) == step_running(
            run_ops(step_running(r, ops[0]), ops.skip(1)),
            op,
        ));
        assert(run_ops(r, ops) == run_ops(step_running(r, ops[0]), ops.skip(1)));
    }
}

/// Law: over any sequence of lifecycle operations, the supervisor tracks
/// at most one process — the slot is a single `Option` and each
/// transition replaces it whole — and immediately after any stop the slot
/// is empty, even if the underlying termination signal failed; a
/// successful start supersedes whatever was tracked before it.
pub proof fn lemma_lifecycle_single_slot(r0: Option<u32>, ops: Seq<SessionOp>, k: int)
    requires
        0 <= k < ops.len(),
    ensures
        (ops[k] is Stop) ==> (run_ops(r0, ops.take(k + 1)) is None),
        (ops[k] is StartOk) ==> run_ops(r0, ops.take(k + 1)) == Some(ops[k]->StartOk_pid),
    decreases ops.len(),
{
    assert(ops.take(k + 1) =~= ops.take(k).push(ops[k]));
    lemma_run_ops_push(r0, ops.take(k), ops[k]);
}

} // verus!
