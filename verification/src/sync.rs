//! The metadata synchronizer's decision core: a pure state machine that,
//! given the previous synchronizer state and one momentary snapshot of the
//! player, decides which status and metadata pushes the native session must
//! receive in this cycle and what the next state is. The surrounding
//! program runs the loop around it: it takes the snapshot, performs the
//! pushes, sleeps, and drains the platform event queue; a failed push
//! terminates that loop and propagates the error, so a state is only
//! carried forward once its cycle's pushes have succeeded.

use vstd::prelude::*;

use crate::item::metadata_for;
use crate::item::PlaybackSnapshot;
use crate::item::MetadataUpdate;
use crate::span::TimeSpan;

verus! {

/// Milliseconds between consecutive synchronizer cycles. The floor of one
/// second is a protocol-safety constraint: the native session's own event
/// handling works at that cadence, and a faster loop would overload it.
pub const REFRESH_INTERVAL_MS: u64 = 1000;

/// Law: the cycle interval never undercuts the documented floor of one
/// second between consecutive cycle starts.
pub proof fn lemma_refresh_interval_floor()
    ensures
        REFRESH_INTERVAL_MS >= 1000,
{
}

/// One playing/paused status push, with the optional playback progress.
#[derive(Clone, Copy, Debug, PartialEq, Eq)]
pub struct StatusUpdate {
    pub playing: bool,
    pub progress: Option<TimeSpan>,
}

/// The pushes one synchronizer cycle asks the native session to perform.
#[derive(Clone, Debug, PartialEq)]
pub struct CycleActions {
    pub status: Option<StatusUpdate>,
    pub metadata: Option<MetadataUpdate>,
}

/// The synchronizer's state between cycles: one bootstrapping iteration,
/// then steady state carrying the fingerprint of the last pushed metadata.
#[derive(Clone, Debug, PartialEq)]
pub enum SyncState {
    Bootstrapping,
    Steady { last_fingerprint: String },
}

impl SyncState {
    /// The mathematical model of a state: nothing while bootstrapping,
    /// otherwise the fingerprint of the metadata last pushed (empty before
    /// any push).
    pub open spec fn model(self) -> Option<Seq<char>> {
        match self {
            SyncState::Bootstrapping => None,
            SyncState::Steady { last_fingerprint } => Some(last_fingerprint@),
        }
    }
}

/// The status push forced by the bootstrapping iteration: "playing" with no
/// progress, whatever the player's true state. On at least one platform the
/// session shows no metadata at all unless its very first status report is
/// "playing"; real state overwrites it in the next cycle.
pub open spec fn forced_status() -> StatusUpdate {
    StatusUpdate { playing: true, progress: None }
}

/// The status push a cycle performs: the forced bootstrap push on the first
/// iteration; afterwards the snapshot's playing flag and progress, or no
/// push at all while nothing is playing.
pub open spec fn status_push(m: Option<Seq<char>>, snap: PlaybackSnapshot) -> Option<StatusUpdate> {
    if m is None {
        Some(forced_status())
    } else if snap.item is Some {
        Some(StatusUpdate { playing: snap.is_playing, progress: snap.progress })
    } else {
        None
    }
}

/// Whether a cycle pushes metadata: only in steady state, only while an
/// item is playing, and only when that item's fingerprint differs from the
/// fingerprint of the last pushed metadata.
pub open spec fn pushes_metadata(m: Option<Seq<char>>, snap: PlaybackSnapshot) -> bool {
    &&& m is Some
    &&& snap.item is Some
    &&& snap.item->0.fingerprint() != m->0
}

/// The model of the state a cycle leaves behind: bootstrapping ends with an
/// empty fingerprint; a steady cycle records the fingerprint of the item it
/// saw, and keeps the old one while nothing is playing.
pub open spec fn next_model(m: Option<Seq<char>>, snap: PlaybackSnapshot) -> Option<Seq<char>> {
    match m {
        None => Some(Seq::empty()),
        Some(fp) => match snap.item {
            Some(it) => Some(it.fingerprint()),
            None => Some(fp),
        },
    }
}

impl SyncState {
    /// Run one synchronizer cycle on one snapshot: returns the state for
    /// the next cycle and the pushes this cycle owes the native session.
    /// The cycle pushes metadata exactly when the current item's
    /// fingerprint differs from the last pushed one, and what it pushes is
    /// the item's own metadata.
    pub fn step(self, snapshot: &PlaybackSnapshot) -> (r: (SyncState, CycleActions))
        ensures
            r.0.model() == next_model(self.model(), *snapshot),
            r.1.status == status_push(self.model(), *snapshot),
            r.1.metadata is Some <==> pushes_metadata(self.model(), *snapshot),
            r.1.metadata matches Some(m) ==> metadata_for(m, snapshot.item->0),
    {
        match self {
            SyncState::Bootstrapping => {
                let actions = CycleActions {
                    status: Some(StatusUpdate { playing: true, progress: None }),
                    metadata: None,
                };
                (SyncState::Steady { last_fingerprint: String::new() }, actions)
            },
            SyncState::Steady { last_fingerprint } => {
                match &snapshot.item {
                    None => {
                        let actions = CycleActions { status: None, metadata: None };
                        (SyncState::Steady { last_fingerprint }, actions)
                    },
                    Some(item) => {
                        let status = StatusUpdate {
                            playing: snapshot.is_playing,
                            progress: snapshot.progress,
                        };
                        let fingerprint = item.compute_fingerprint();
                        if fingerprint == last_fingerprint {
                            let actions = CycleActions { status: Some(status), metadata: None };
                            (SyncState::Steady { last_fingerprint }, actions)
                        } else {
                            let actions = CycleActions {
                                status: Some(status),
                                metadata: Some(item.metadata()),
                            };
                            (SyncState::Steady { last_fingerprint: fingerprint }, actions)
                        }
                    },
                }
            },
        }
    }
}

/// Law: change-detection idempotence. Over two consecutive cycles whose
/// snapshots carry items with the same fingerprint (same name and same
/// container name), metadata is pushed at most once across the pair; and
/// when the first of the two is already a steady cycle, the second never
/// pushes at all.
pub proof fn lemma_no_repeat_metadata_push(s: SyncState, a: PlaybackSnapshot, b: PlaybackSnapshot)
    requires
        a.item is Some,
        b.item is Some,
        a.item->0.fingerprint() == b.item->0.fingerprint(),
    ensures
        !(pushes_metadata(s.model(), a) && pushes_metadata(next_model(s.model(), a), b)),
        s.model() is Some ==> !pushes_metadata(next_model(s.model(), a), b),
{
}

/// Law: the bootstrapping iteration reports "playing" with no progress,
/// regardless of the snapshot, and pushes no metadata.
pub proof fn lemma_bootstrap_forces_playing(snap: PlaybackSnapshot)
    ensures
        status_push(SyncState::Bootstrapping.model(), snap) == Some(forced_status()),
        !pushes_metadata(SyncState::Bootstrapping.model(), snap),
{
}

} // verus!
