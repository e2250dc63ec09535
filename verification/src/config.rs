//! Start-request payloads and the miner configuration, plus the
//! deterministic construction of the child process's argument vector.

use vstd::prelude::*;

use crate::text::str_eq;

verus! {

/// The configuration of one supervised process, immutable once
/// constructed; it is remembered on every successful start for later
/// restart use.
#[derive(Clone, Debug)]
pub struct MinerConfig {
    /// The UI chain selector, e.g. `resonance`.
    pub chain: String,
    pub rewards_address: String,
    pub binary_path: String,
    /// Caller-supplied extra arguments, appended last, so that
    /// automation-injected flags are included when restarting.
    pub extra_args: Vec<String>,
    pub log_to_file: bool,
}

/// The mathematical shape of a [`MinerConfig`].
#[verifier::ext_equal]
pub struct CfgView {
    pub chain: Seq<char>,
    pub rewards_address: Seq<char>,
    pub binary_path: Seq<char>,
    pub extra_args: Seq<Seq<char>>,
    pub log_to_file: bool,
}

impl View for MinerConfig {
    type V = CfgView;

    open spec fn view(&self) -> CfgView {
        CfgView {
            chain: self.chain@,
            rewards_address: self.rewards_address@,
            binary_path: self.binary_path@,
            extra_args: self.extra_args.deep_view(),
            log_to_file: self.log_to_file,
        }
    }
}

impl MinerConfig {
    /// A field-for-field copy (the derived clone is opaque to the
    /// verifier, this one is not).
    pub fn duplicate(&self) -> (c: MinerConfig)
        ensures
            c@ == self@,
    {
        let mut extra: Vec<String> = Vec::new();
        let n = self.extra_args.len();
        let mut i: usize = 0;
        while i < n
            invariant
                n == self.extra_args.len(),
                0 <= i <= n,
                extra.deep_view() =~= self.extra_args.deep_view().take(i as int),
            decreases n - i,
        {
            let ghost e0 = extra.deep_view();
            extra.push(self.extra_args[i].clone());
            proof {
                assert(extra.deep_view() =~= e0.push(self.extra_args.deep_view()[i as int]));
                assert(self.extra_args.deep_view().take(i + 1) =~= e0.push(
                    self.extra_args.deep_view()[i as int],
                ));
            }
            i = i + 1;
        }
        proof {
            assert(extra.deep_view() =~= self.extra_args.deep_view());
        }
        let c = MinerConfig {
            chain: self.chain.clone(),
            rewards_address: self.rewards_address.clone(),
            binary_path: self.binary_path.clone(),
            extra_args: extra,
            log_to_file: self.log_to_file,
        };
        proof {
            assert(c@ =~= self@);
        }
        c
    }
}

/// A start request as handed in from outside, before it becomes a
/// [`MinerConfig`].
#[derive(Clone, Debug)]
pub struct StartMinerArgs {
    pub chain: String,
    pub rewards_address: String,
    pub binary_path: String,
    pub extra_args: Vec<String>,
    pub log_to_file: bool,
    /// Requested worker count for an external parallel miner, if any.
    pub external_num_cores: Option<usize>,
    /// Requested port for an external parallel miner, if any.
    pub external_port: Option<u16>,
}

impl StartMinerArgs {
    /// The configuration this request asks for.
    pub fn to_config(self) -> (c: MinerConfig)
        ensures
            c@ == (CfgView {
                chain: self.chain@,
                rewards_address: self.rewards_address@,
                binary_path: self.binary_path@,
                extra_args: self.extra_args.deep_view(),
                log_to_file: self.log_to_file,
            }),
    {
        MinerConfig {
            chain: self.chain,
            rewards_address: self.rewards_address,
            binary_path: self.binary_path,
            extra_args: self.extra_args,
            log_to_file: self.log_to_file,
        }
    }
}

/// A chain selection request.
#[derive(Clone, Debug)]
pub struct ChainSelection {
    pub chain: String,
}

/// Settings for an external parallel miner process.
#[derive(Clone, Copy, Debug)]
pub struct ExternalMinerConfig {
    pub num_cores: usize,
    pub port: u16,
}

/// Whether `chain` names a chain this supervisor knows.
pub fn chain_is_known(chain: &str) -> (r: bool)
    ensures
        r == (chain@ == "resonance"@ || chain@ == "heisenberg"@ || chain@ == "quantus"@),
{
    str_eq(chain, "resonance") || str_eq(chain, "heisenberg") || str_eq(chain, "quantus")
}

/// Maps the UI chain selector to the node's command-line chain argument.
/// `None` for the chain whose required binary is not yet released.
pub fn cli_chain_for_ui<'a>(chain: &'a str) -> (r: Option<&'a str>)
    ensures
        chain@ == "resonance"@ ==> (match r {
            Some(c) => c@ == "live_resonance"@,
            None => false,
        }),
        chain@ == "heisenberg"@ ==> r is None,
        chain@ != "resonance"@ && chain@ != "heisenberg"@ ==> (match r {
            Some(c) => c@ == chain@,
            None => false,
        }),
{
    proof {
        reveal_strlit("resonance");
        reveal_strlit("heisenberg");
        assert("resonance"@.len() == 9);
        assert("heisenberg"@.len() == 10);
    }
    if str_eq(chain, "resonance") {
        Some("live_resonance")
    } else if str_eq(chain, "heisenberg") {
        None
    } else {
        Some(chain)
    }
}

/// The argument vector a start builds: chain selector, the fixed required
/// flags, the node key file, the rewards address, then the caller's extra
/// arguments appended last.
pub open spec fn spec_build_args(
    cli_chain: Seq<char>,
    node_key_path: Seq<char>,
    rewards_address: Seq<char>,
    extra: Seq<Seq<char>>,
) -> Seq<Seq<char>> {
    seq![
        "--chain"@,
        cli_chain,
        "--validator"@,
        "--node-key-file"@,
        node_key_path,
        "--rewards-address"@,
        rewards_address,
    ] + extra
}

/// Builds the argument vector deterministically; see [`spec_build_args`].
pub fn build_args(
    cli_chain: &str,
    node_key_path: &str,
    rewards_address: &str,
    extra: &Vec<String>,
) -> (r: Vec<String>)
    ensures
        r.deep_view() == spec_build_args(cli_chain@, node_key_path@, rewards_address@, extra.deep_view()),
{
    let mut args: Vec<String> = Vec::new();
    args.push("--chain".to_owned());
    args.push(cli_chain.to_owned());
    args.push("--validator".to_owned());
    args.push("--node-key-file".to_owned());
    args.push(node_key_path.to_owned());
    args.push("--rewards-address".to_owned());
    args.push(rewards_address.to_owned());
    let ghost head = args.deep_view();
    let n = extra.len();
    let mut i: usize = 0;
    while i < n
        invariant
            n == extra.len(),
            0 <= i <= n,
            args.deep_view() =~= head + extra.deep_view().take(i as int),
        decreases n - i,
    {
        let ghost a0 = args.deep_view();
        args.push(extra[i].clone());
        proof {
            assert(args.deep_view() =~= a0.push(extra.deep_view()[i as int]));
            assert(head + extra.deep_view().take(i + 1) =~= a0.push(
                extra.deep_view()[i as int],
            ));
        }
        i = i + 1;
    }
    proof {
        assert(extra.deep_view().take(n as int) =~= extra.deep_view());
        assert(args.deep_view() =~= spec_build_args(
            cli_chain@,
            node_key_path@,
            rewards_address@,
            extra.deep_view(),
        ));
    }
    args
}

} // verus!
