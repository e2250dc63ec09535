//! Metadata extractor: a stateful accumulator that fills a [`MinerMeta`]
//! record from a stream of log lines. Each rule pairs a marker substring
//! with a destination field; when a line contains the marker, the trimmed
//! remainder of the line becomes the field's new value. Extraction is
//! cumulative: a populated field is only ever overwritten, never cleared.

use vstd::prelude::*;

use crate::text::{
    find_ci_from, find_from, run_end, scan_run, spec_parse_u64, trim_spec, trim_str, CharClass,
};

verus! {

/// Accumulated facts about the supervised process, each learned from its
/// startup and status log lines (or, for the first three fields, from the
/// start request itself).
#[derive(Clone, Debug)]
pub struct MinerMeta {
    pub binary: Option<String>,
    pub chain: Option<String>,
    pub rewards_address: Option<String>,
    pub version: Option<String>,
    pub chain_spec: Option<String>,
    pub node_name: Option<String>,
    pub role: Option<String>,
    pub database: Option<String>,
    pub local_identity: Option<String>,
    pub jsonrpc_addr: Option<String>,
    pub prometheus_addr: Option<String>,
    pub highest_known_block: Option<u64>,
    pub os: Option<String>,
    pub arch: Option<String>,
    pub target: Option<String>,
    pub cpu: Option<String>,
    pub cpu_cores: Option<u32>,
    pub memory: Option<String>,
    pub kernel: Option<String>,
    pub distro: Option<String>,
    pub vm: Option<String>,
}

/// The mathematical shape of a [`MinerMeta`].
#[verifier::ext_equal]
pub struct MetaView {
    pub binary: Option<Seq<char>>,
    pub chain: Option<Seq<char>>,
    pub rewards_address: Option<Seq<char>>,
    pub version: Option<Seq<char>>,
    pub chain_spec: Option<Seq<char>>,
    pub node_name: Option<Seq<char>>,
    pub role: Option<Seq<char>>,
    pub database: Option<Seq<char>>,
    pub local_identity: Option<Seq<char>>,
    pub jsonrpc_addr: Option<Seq<char>>,
    pub prometheus_addr: Option<Seq<char>>,
    pub highest_known_block: Option<u64>,
    pub os: Option<Seq<char>>,
    pub arch: Option<Seq<char>>,
    pub target: Option<Seq<char>>,
    pub cpu: Option<Seq<char>>,
    pub cpu_cores: Option<u32>,
    pub memory: Option<Seq<char>>,
    pub kernel: Option<Seq<char>>,
    pub distro: Option<Seq<char>>,
    pub vm: Option<Seq<char>>,
}

impl View for MinerMeta {
    type V = MetaView;

    open spec fn view(&self) -> MetaView {
        MetaView {
            binary: self.binary.deep_view(),
            chain: self.chain.deep_view(),
            rewards_address: self.rewards_address.deep_view(),
            version: self.version.deep_view(),
            chain_spec: self.chain_spec.deep_view(),
            node_name: self.node_name.deep_view(),
            role: self.role.deep_view(),
            database: self.database.deep_view(),
            local_identity: self.local_identity.deep_view(),
            jsonrpc_addr: self.jsonrpc_addr.deep_view(),
            prometheus_addr: self.prometheus_addr.deep_view(),
            highest_known_block: self.highest_known_block,
            os: self.os.deep_view(),
            arch: self.arch.deep_view(),
            target: self.target.deep_view(),
            cpu: self.cpu.deep_view(),
            cpu_cores: self.cpu_cores,
            memory: self.memory.deep_view(),
            kernel: self.kernel.deep_view(),
            distro: self.distro.deep_view(),
            vm: self.vm.deep_view(),
        }
    }
}

// --- one extraction rule ---

/// The trimmed remainder of `line` after the first exact occurrence of
/// `marker`, if `line` contains `marker`.
pub open spec fn extract_exact(line: Seq<char>, marker: Seq<char>) -> Option<Seq<char>> {
    match find_from(line, marker, 0) {
        Some(i) => Some(trim_spec(line.skip(i + marker.len()))),
        None => None,
    }
}

/// As [`extract_exact`], with the marker matched up to ASCII case.
pub open spec fn extract_ci(line: Seq<char>, marker: Seq<char>) -> Option<Seq<char>> {
    match find_ci_from(line, marker, 0) {
        Some(i) => Some(trim_spec(line.skip(i + marker.len()))),
        None => None,
    }
}

/// New value of a string field after seeing `line`: a non-empty extracted
/// value replaces the current one, anything else leaves it.
pub open spec fn field_step(
    cur: Option<Seq<char>>,
    line: Seq<char>,
    marker: Seq<char>,
) -> Option<Seq<char>> {
    match extract_exact(line, marker) {
        Some(v) => if v.len() > 0 {
            Some(v)
        } else {
            cur
        },
        None => cur,
    }
}

/// As [`field_step`], with the marker matched up to ASCII case.
pub open spec fn field_step_ci(
    cur: Option<Seq<char>>,
    line: Seq<char>,
    marker: Seq<char>,
) -> Option<Seq<char>> {
    match extract_ci(line, marker) {
        Some(v) => if v.len() > 0 {
            Some(v)
        } else {
            cur
        },
        None => cur,
    }
}

/// New value of the highest-known-block field: the digit run directly after
/// the marker, when it parses as a `u64`.
pub open spec fn hkb_step(cur: Option<u64>, line: Seq<char>) -> Option<u64> {
    match find_ci_from(line, "highest known block at #"@, 0) {
        Some(i) => {
            let a = i + "highest known block at #"@.len();
            match spec_parse_u64(line.subrange(a, run_end(line, a, CharClass::Digit))) {
                Some(n) => Some(n),
                None => cur,
            }
        },
        None => cur,
    }
}

/// The value of a non-empty all-digit numeral when it fits in a `u32`.
pub open spec fn spec_parse_u32(t: Seq<char>) -> Option<u32> {
    match spec_parse_u64(t) {
        Some(n) => if n <= u32::MAX {
            Some(n as u32)
        } else {
            None
        },
        None => None,
    }
}

/// New value of the CPU-cores field: the trimmed remainder after the
/// marker, when it parses as a `u32`.
pub open spec fn cores_step(cur: Option<u32>, line: Seq<char>) -> Option<u32> {
    match extract_exact(line, "CPU cores:"@) {
        Some(v) => match spec_parse_u32(v) {
            Some(n) => Some(n),
            None => cur,
        },
        None => cur,
    }
}

// --- the cumulative-extraction law ---

/// Law: extraction is cumulative. A populated string field is only ever
/// overwritten, never cleared, by a later matching line.
pub proof fn lemma_field_step_cumulative(
    cur: Option<Seq<char>>,
    line: Seq<char>,
    marker: Seq<char>,
)
    requires
        cur is Some,
    ensures
        (field_step(cur, line, marker) is Some),
        (field_step_ci(cur, line, marker) is Some),
{
}

/// Law: extraction is cumulative for the numeric fields too: a populated
/// block height or core count is only ever overwritten, never cleared.
pub proof fn lemma_numeric_step_cumulative(hkb: Option<u64>, cores: Option<u32>, line: Seq<char>)
    requires
        hkb is Some,
        cores is Some,
    ensures
        (hkb_step(hkb, line) is Some),
        (cores_step(cores, line) is Some),
{
}

// --- executable helpers ---

fn extract_after_exact(line: &str, marker: &str) -> (r: Option<String>)
    ensures
        (match r {
            Some(v) => extract_exact(line@, marker@) == Some(v@),
            None => extract_exact(line@, marker@) is None,
        }),
{
    match crate::text::find_exact(line, marker) {
        Some(i) => {
            let n = line.unicode_len();
            let m = marker.unicode_len();
            let rest = line.substring_char(i + m, n);
            proof {
                assert(rest@ =~= line@.skip(i + marker@.len()));
            }
            Some(trim_str(rest).to_owned())
        },
        None => None,
    }
}

fn extract_after_ci(line: &str, marker: &str) -> (r: Option<String>)
    ensures
        (match r {
            Some(v) => extract_ci(line@, marker@) == Some(v@),
            None => extract_ci(line@, marker@) is None,
        }),
{
    match crate::text::find_ci(line, marker) {
        Some(i) => {
            let n = line.unicode_len();
            let m = marker.unicode_len();
            let rest = line.substring_char(i + m, n);
            proof {
                assert(rest@ =~= line@.skip(i + marker@.len()));
            }
            Some(trim_str(rest).to_owned())
        },
        None => None,
    }
}

fn opt_str_differs(cur: &Option<String>, v: &String) -> (r: bool)
    ensures
        r == (cur.deep_view() != Some(v@)),
{
    match cur {
        Some(s) => !crate::text::str_eq(s.as_str(), v.as_str()),
        None => true,
    }
}

fn apply_str_field(dst: &mut Option<String>, line: &str, marker: &str) -> (c: bool)
    ensures
        final(dst).deep_view() == field_step(old(dst).deep_view(), line@, marker@),
        c == (final(dst).deep_view() != old(dst).deep_view()),
{
    match extract_after_exact(line, marker) {
        Some(v) => {
            if v.as_str().unicode_len() == 0 {
                false
            } else if opt_str_differs(dst, &v) {
                *dst = Some(v);
                true
            } else {
                false
            }
        },
        None => false,
    }
}

fn apply_str_field_ci(dst: &mut Option<String>, line: &str, marker: &str) -> (c: bool)
    ensures
        final(dst).deep_view() == field_step_ci(old(dst).deep_view(), line@, marker@),
        c == (final(dst).deep_view() != old(dst).deep_view()),
{
    match extract_after_ci(line, marker) {
        Some(v) => {
            if v.as_str().unicode_len() == 0 {
                false
            } else if opt_str_differs(dst, &v) {
                *dst = Some(v);
                true
            } else {
                false
            }
        },
        None => false,
    }
}

fn apply_hkb(dst: &mut Option<u64>, line: &str) -> (c: bool)
    ensures
        *final(dst) == hkb_step(*old(dst), line@),
        c == (*final(dst) != *old(dst)),
{
    proof {
        reveal_strlit("highest known block at #");
    }
    let n = line.unicode_len();
    match crate::text::find_ci(line, "highest known block at #") {
        Some(i) => {
            let a = i + 24;
            let d = scan_run(line, a, CharClass::Digit);
            let num = line.substring_char(a, d);
            match crate::text::parse_u64_digits(num) {
                Some(n) => {
                    let c = match dst {
                        Some(cur) => *cur != n,
                        None => true,
                    };
                    if c {
                        *dst = Some(n);
                    }
                    c
                },
                None => false,
            }
        },
        None => false,
    }
}

fn apply_cores(dst: &mut Option<u32>, line: &str) -> (c: bool)
    ensures
        *final(dst) == cores_step(*old(dst), line@),
        c == (*final(dst) != *old(dst)),
{
    match extract_after_exact(line, "CPU cores:") {
        Some(v) => {
            match crate::text::parse_u64_digits(v.as_str()) {
                Some(n) => {
                    if n <= 0xffff_ffff {
                        let n32: u32 = n as u32;
                        let c = match dst {
                            Some(cur) => *cur != n32,
                            None => true,
                        };
                        if c {
                            *dst = Some(n32);
                        }
                        c
                    } else {
                        false
                    }
                },
                None => false,
            }
        },
        None => false,
    }
}

// --- the extractor step ---

/// The record after one line has been folded in: every rule whose marker
/// occurs in the line updates its field, independently of the others.
pub open spec fn spec_meta_step(m: MetaView, line: Seq<char>) -> MetaView {
    MetaView {
        binary: m.binary,
        chain: m.chain,
        rewards_address: field_step(m.rewards_address, line, "Using provided rewards address:"@),
        version: field_step_ci(m.version, line, "version "@),
        chain_spec: field_step(m.chain_spec, line, "Chain specification:"@),
        node_name: field_step(m.node_name, line, "Node name:"@),
        role: field_step(m.role, line, "Role:"@),
        database: field_step(m.database, line, "Database: RocksDb at"@),
        local_identity: field_step(m.local_identity, line, "Local node identity is:"@),
        jsonrpc_addr: field_step(m.jsonrpc_addr, line, "Running JSON-RPC server: addr="@),
        prometheus_addr: field_step(m.prometheus_addr, line, "Prometheus exporter started at"@),
        highest_known_block: hkb_step(m.highest_known_block, line),
        os: field_step(m.os, line, "Operating system:"@),
        arch: field_step(m.arch, line, "CPU architecture:"@),
        target: field_step(m.target, line, "Target environment:"@),
        cpu: field_step(m.cpu, line, "CPU:"@),
        cpu_cores: cores_step(m.cpu_cores, line),
        memory: field_step(m.memory, line, "Memory:"@),
        kernel: field_step(m.kernel, line, "Kernel:"@),
        distro: field_step(m.distro, line, "Linux distribution:"@),
        vm: field_step(m.vm, line, "Virtual machine:"@),
    }
}

/// Folds one log line into `meta` and reports whether any field changed.
pub fn update_meta_from_line(meta: &mut MinerMeta, line: &str) -> (changed: bool)
    ensures
        final(meta)@ == spec_meta_step(old(meta)@, line@),
        changed == (final(meta)@ != old(meta)@),
{
    let c1 = apply_str_field_ci(&mut meta.version, line, "version ");
    let c2 = apply_str_field(&mut meta.chain_spec, line, "Chain specification:");
    let c3 = apply_str_field(&mut meta.node_name, line, "Node name:");
    let c4 = apply_str_field(&mut meta.role, line, "Role:");
    let c5 = apply_str_field(&mut meta.database, line, "Database: RocksDb at");
    let c6 = apply_str_field(&mut meta.local_identity, line, "Local node identity is:");
    let c7 = apply_str_field(&mut meta.jsonrpc_addr, line, "Running JSON-RPC server: addr=");
    let c8 = apply_str_field(&mut meta.prometheus_addr, line, "Prometheus exporter started at");
    let c9 = apply_str_field(&mut meta.rewards_address, line, "Using provided rewards address:");
    let c10 = apply_hkb(&mut meta.highest_known_block, line);
    let c11 = apply_str_field(&mut meta.os, line, "Operating system:");
    let c12 = apply_str_field(&mut meta.arch, line, "CPU architecture:");
    let c13 = apply_str_field(&mut meta.target, line, "Target environment:");
    let c14 = apply_str_field(&mut meta.cpu, line, "CPU:");
    let c15 = apply_str_field(&mut meta.memory, line, "Memory:");
    let c16 = apply_str_field(&mut meta.kernel, line, "Kernel:");
    let c17 = apply_str_field(&mut meta.distro, line, "Linux distribution:");
    let c18 = apply_str_field(&mut meta.vm, line, "Virtual machine:");
    let c19 = apply_cores(&mut meta.cpu_cores, line);
    let changed = c1 || c2 || c3 || c4 || c5 || c6 || c7 || c8 || c9 || c10 || c11 || c12 || c13
        || c14 || c15 || c16 || c17 || c18 || c19;
    proof {
        assert(final(meta)@ =~= spec_meta_step(old(meta)@, line@));
        if !changed {
            assert(final(meta)@ =~= old(meta)@);
        }
    }
    changed
}

impl MinerMeta {
    /// A record with every field unknown.
    pub fn empty() -> (m: MinerMeta)
        ensures
            m@ == (MetaView {
                binary: None,
                chain: None,
                rewards_address: None,
                version: None,
                chain_spec: None,
                node_name: None,
                role: None,
                database: None,
                local_identity: None,
                jsonrpc_addr: None,
                prometheus_addr: None,
                highest_known_block: None,
                os: None,
                arch: None,
                target: None,
                cpu: None,
                cpu_cores: None,
                memory: None,
                kernel: None,
                distro: None,
                vm: None,
            }),
    {
        MinerMeta {
            binary: None,
            chain: None,
            rewards_address: None,
            version: None,
            chain_spec: None,
            node_name: None,
            role: None,
            database: None,
            local_identity: None,
            jsonrpc_addr: None,
            prometheus_addr: None,
            highest_known_block: None,
            os: None,
            arch: None,
            target: None,
            cpu: None,
            cpu_cores: None,
            memory: None,
            kernel: None,
            distro: None,
            vm: None,
        }
    }

    /// The fresh record created for one process start, already carrying the
    /// start request's own context.
    pub fn for_start(binary: &str, chain: &str, rewards_address: &str) -> (m: MinerMeta)
        ensures
            m@ == (MetaView {
                binary: Some(binary@),
                chain: Some(chain@),
                rewards_address: Some(rewards_address@),
                version: None,
                chain_spec: None,
                node_name: None,
                role: None,
                database: None,
                local_identity: None,
                jsonrpc_addr: None,
                prometheus_addr: None,
                highest_known_block: None,
                os: None,
                arch: None,
                target: None,
                cpu: None,
                cpu_cores: None,
                memory: None,
                kernel: None,
                distro: None,
                vm: None,
            }),
    {
        MinerMeta {
            binary: Some(binary.to_owned()),
            chain: Some(chain.to_owned()),
            rewards_address: Some(rewards_address.to_owned()),
            version: None,
            chain_spec: None,
            node_name: None,
            role: None,
            database: None,
            local_identity: None,
            jsonrpc_addr: None,
            prometheus_addr: None,
            highest_known_block: None,
            os: None,
            arch: None,
            target: None,
            cpu: None,
            cpu_cores: None,
            memory: None,
            kernel: None,
            distro: None,
            vm: None,
        }
    }
}

} // verus!
