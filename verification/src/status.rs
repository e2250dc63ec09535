//! Consolidated status snapshot and its change-gated republication. Every
//! poll tick folds local-node answers and a sampled remote height into the
//! snapshot; the tracker publishes the snapshot only when some field
//! differs from the previous publication.

use vstd::prelude::*;

verus! {

/// The consolidated health/sync snapshot; a field is `None` while nothing
/// has reported it (or the last attempt to learn it failed).
#[derive(Clone, Copy, Debug)]
#[verifier::ext_equal]
pub struct MinerStatus {
    pub peers: Option<u32>,
    pub current_block: Option<u64>,
    pub highest_block: Option<u64>,
    pub is_syncing: Option<bool>,
}

impl MinerStatus {
    /// The empty snapshot a session starts from.
    pub fn unknown() -> (s: MinerStatus)
        ensures
            s == (MinerStatus {
                peers: None,
                current_block: None,
                highest_block: None,
                is_syncing: None,
            }),
    {
        MinerStatus { peers: None, current_block: None, highest_block: None, is_syncing: None }
    }
}

/// Whether two snapshots agree on every field.
pub fn status_eq(a: &MinerStatus, b: &MinerStatus) -> (r: bool)
    ensures
        r == (*a == *b),
{
    let pe = match (a.peers, b.peers) {
        (Some(x), Some(y)) => x == y,
        (None, None) => true,
        _ => false,
    };
    let cb = match (a.current_block, b.current_block) {
        (Some(x), Some(y)) => x == y,
        (None, None) => true,
        _ => false,
    };
    let hb = match (a.highest_block, b.highest_block) {
        (Some(x), Some(y)) => x == y,
        (None, None) => true,
        _ => false,
    };
    let sy = match (a.is_syncing, b.is_syncing) {
        (Some(x), Some(y)) => x == y,
        (None, None) => true,
        _ => false,
    };
    let r = pe && cb && hb && sy;
    proof {
        if r {
            assert(*a =~= *b);
        }
    }
    r
}

/// The snapshot plus the last publication, the state of one status-polling
/// session.
#[derive(Clone, Copy, Debug)]
#[verifier::ext_equal]
pub struct StatusTracker {
    /// The latest consolidated snapshot.
    pub cur: MinerStatus,
    /// The snapshot most recently handed out for publication, if any.
    pub last_published: Option<MinerStatus>,
}

/// What publishing does: hand out the snapshot and remember it, or
/// nothing when it equals the previous publication.
pub open spec fn spec_publish(t: StatusTracker) -> (Option<MinerStatus>, StatusTracker) {
    if t.last_published == Some(t.cur) {
        (None, t)
    } else {
        (Some(t.cur), StatusTracker { cur: t.cur, last_published: Some(t.cur) })
    }
}

impl StatusTracker {
    /// The tracker a fresh session starts from: nothing known, nothing
    /// published.
    pub fn new() -> (t: StatusTracker)
        ensures
            t.cur == (MinerStatus {
                peers: None,
                current_block: None,
                highest_block: None,
                is_syncing: None,
            }),
            (t.last_published is None),
    {
        StatusTracker { cur: MinerStatus::unknown(), last_published: None }
    }

    /// The latest snapshot, for callers that report it outside the
    /// change gate (e.g. while the local node is unreachable).
    pub fn current(&self) -> (s: MinerStatus)
        ensures
            s == self.cur,
    {
        self.cur
    }

    /// Folds a health reply: a reported peer count (truncated to 32 bits,
    /// as reported) and syncing flag overwrite their fields; absent values
    /// leave them.
    pub fn fold_health(&mut self, peers: Option<u64>, syncing: Option<bool>) -> (changed: bool)
        ensures
            final(self).cur.peers == (match peers {
                Some(p) => Some(p as u32),
                None => old(self).cur.peers,
            }),
            final(self).cur.is_syncing == (match syncing {
                Some(s) => Some(s),
                None => old(self).cur.is_syncing,
            }),
            final(self).cur.current_block == old(self).cur.current_block,
            final(self).cur.highest_block == old(self).cur.highest_block,
            final(self).last_published == old(self).last_published,
            changed == (final(self).cur != old(self).cur),
    {
        let mut changed = false;
        if let Some(p) = peers {
            let np = p as u32;
            let differs = match self.cur.peers {
                Some(q) => q != np,
                None => true,
            };
            if differs {
                self.cur.peers = Some(np);
                changed = true;
            }
        }
        if let Some(s) = syncing {
            let differs = match self.cur.is_syncing {
                Some(q) => q != s,
                None => true,
            };
            if differs {
                self.cur.is_syncing = Some(s);
                changed = true;
            }
        }
        proof {
            if !changed {
                assert(final(self).cur =~= old(self).cur);
            }
        }
        changed
    }

    /// Folds a new-heads notification: the head's number becomes the
    /// current block.
    pub fn fold_head(&mut self, n: u64) -> (changed: bool)
        ensures
            final(self).cur.current_block == Some(n),
            final(self).cur.peers == old(self).cur.peers,
            final(self).cur.highest_block == old(self).cur.highest_block,
            final(self).cur.is_syncing == old(self).cur.is_syncing,
            final(self).last_published == old(self).last_published,
            changed == (final(self).cur != old(self).cur),
    {
        let differs = match self.cur.current_block {
            Some(q) => q != n,
            None => true,
        };
        if differs {
            self.cur.current_block = Some(n);
        }
        proof {
            if !differs {
                assert(final(self).cur =~= old(self).cur);
            }
        }
        differs
    }

    /// Folds a remotely sampled height: the higher of it and the known
    /// highest block wins.
    pub fn fold_remote_highest(&mut self, n: u64) -> (changed: bool)
        ensures
            final(self).cur.highest_block == (match old(self).cur.highest_block {
                Some(h) => Some(if n > h {
                    n
                } else {
                    h
                }),
                None => Some(n),
            }),
            final(self).cur.peers == old(self).cur.peers,
            final(self).cur.current_block == old(self).cur.current_block,
            final(self).cur.is_syncing == old(self).cur.is_syncing,
            final(self).last_published == old(self).last_published,
            changed == (final(self).cur != old(self).cur),
    {
        let new_h = match self.cur.highest_block {
            Some(h) => if n > h {
                n
            } else {
                h
            },
            None => n,
        };
        let differs = match self.cur.highest_block {
            Some(q) => q != new_h,
            None => true,
        };
        if differs {
            self.cur.highest_block = Some(new_h);
        }
        proof {
            if !differs {
                assert(final(self).cur =~= old(self).cur);
            }
        }
        differs
    }

    /// Folds a sync-state reply: a reported current block overwrites its
    /// field, and a reported highest block is merged so that the higher of
    /// local and remote wins.
    pub fn fold_sync_state(&mut self, current: Option<u64>, highest: Option<u64>) -> (changed:
        bool)
        ensures
            final(self).cur.current_block == (match current {
                Some(c) => Some(c),
                None => old(self).cur.current_block,
            }),
            final(self).cur.highest_block == (match highest {
                Some(h) => match old(self).cur.highest_block {
                    Some(k) => Some(if h > k {
                        h
                    } else {
                        k
                    }),
                    None => Some(h),
                },
                None => old(self).cur.highest_block,
            }),
            final(self).cur.peers == old(self).cur.peers,
            final(self).cur.is_syncing == old(self).cur.is_syncing,
            final(self).last_published == old(self).last_published,
            changed == (final(self).cur != old(self).cur),
    {
        let mut changed = false;
        if let Some(c) = current {
            let differs = match self.cur.current_block {
                Some(q) => q != c,
                None => true,
            };
            if differs {
                self.cur.current_block = Some(c);
                changed = true;
            }
        }
        if let Some(h) = highest {
            let new_h = match self.cur.highest_block {
                Some(k) => if h > k {
                    h
                } else {
                    k
                },
                None => h,
            };
            let differs = match self.cur.highest_block {
                Some(q) => q != new_h,
                None => true,
            };
            if differs {
                self.cur.highest_block = Some(new_h);
                changed = true;
            }
        }
        proof {
            if !changed {
                assert(final(self).cur =~= old(self).cur);
            }
        }
        changed
    }

    /// Hands out the snapshot for publication exactly when it differs from
    /// the previous publication, and remembers it.
    pub fn publish_if_changed(&mut self) -> (r: Option<MinerStatus>)
        ensures
            r == spec_publish(*old(self)).0,
            *final(self) == spec_publish(*old(self)).1,
    {
        let same = match &self.last_published {
            Some(p) => status_eq(p, &self.cur),
            None => false,
        };
        if same {
            None
        } else {
            self.last_published = Some(self.cur);
            Some(self.cur)
        }
    }
}

/// Law: republication requires a change. Publishing, then publishing again
/// with no fold in between, hands out nothing the second time; two
/// consecutive identical polls therefore produce exactly one publication.
pub proof fn lemma_publish_once(t: StatusTracker)
    ensures
        spec_publish(t).0 is Some || spec_publish(t).1 == t,
        spec_publish(spec_publish(t).1).0 is None,
{
}

} // verus!
