//! Finding the metadata to report after an action, polling after a skip.

use vstd::prelude::*;
use vstd::string::*;

use crate::action::PlayerctlAction;
use crate::text::same_text;

verus! {

/// How many times the metadata is read again, at most, waiting for the track
/// to change after a skip.
pub const POLL_ATTEMPTS: u32 = 1000;

/// The pause between two reads of the metadata, in milliseconds.
pub const POLL_INTERVAL_MS: u64 = 5;

/// A snapshot of what a player reports about its current track.
#[derive(Clone, Debug)]
pub struct TrackMetadata {
    pub artist: Option<String>,
    pub album_artist: Option<String>,
    pub title: Option<String>,
    pub album: Option<String>,
    pub track_number: Option<i32>,
    pub disc_number: Option<i32>,
    /// The rating in its decimal text form.
    pub auto_rating: Option<String>,
    /// The track's locator: only compared, to notice that the track changed.
    pub url: Option<String>,
}

/// A question to a player that detection needs answered.
#[derive(Clone, Debug)]
pub enum Probe {
    /// The identifiers of the player's track list.
    TrackList,
    /// The metadata of the track with this identifier.
    TrackMetadata(String),
    /// The player's current metadata.
    Metadata,
    /// Wait `POLL_INTERVAL_MS` milliseconds.
    Pause,
}

/// An answer to a `Probe`; `None` where the player could not give one.
#[derive(Clone, Debug)]
pub enum Observation {
    TrackList(Option<Vec<String>>),
    Metadata(Option<TrackMetadata>),
    Paused,
}

#[derive(Clone, Debug)]
pub enum DetectStep {
    Ask(Probe),
    Found(Option<TrackMetadata>),
}

#[derive(Clone, Copy, Debug, PartialEq, Eq, Structural)]
pub enum DetectStage {
    /// Awaiting the current metadata, which is the answer.
    Plain,
    /// Awaiting the track list.
    TrackList,
    /// Awaiting the metadata of the first track-list entry, which is the answer.
    TrackEntry,
    /// Awaiting the metadata whose locator later reads are compared with.
    Baseline,
    /// Awaiting a fresh read of the metadata.
    Polling,
    /// Awaiting the end of a pause.
    Pausing,
    Done,
}

/// Finds the metadata to report after an action: for a skip, that of the
/// track that becomes current.
#[derive(Clone, Debug)]
pub struct TrackChangeDetector {
    pub stage: DetectStage,
    /// The locator read right after the skip.
    pub baseline: Option<String>,
    /// Reads compared with the baseline so far.
    pub attempts: u32,
    /// The last read, kept while pausing.
    pub last: Option<TrackMetadata>,
}

impl TrackChangeDetector {
    pub open spec fn wf(self) -> bool {
        &&& (self.stage == DetectStage::Polling || self.stage == DetectStage::Pausing) ==> self.attempts < POLL_ATTEMPTS
        &&& self.stage == DetectStage::Polling ==> self.baseline is Some
        &&& self.stage == DetectStage::Pausing ==> self.baseline is Some
    }

    /// An upper bound on the questions still to come.
    pub open spec fn remaining(self) -> nat {
        match self.stage {
            DetectStage::Plain => 1,
            DetectStage::TrackEntry => 1,
            DetectStage::TrackList => (2 * POLL_ATTEMPTS + 3) as nat,
            DetectStage::Baseline => (2 * POLL_ATTEMPTS + 2) as nat,
            DetectStage::Polling => (2 * (POLL_ATTEMPTS - self.attempts)) as nat,
            DetectStage::Pausing => (2 * (POLL_ATTEMPTS - self.attempts) - 1) as nat,
            DetectStage::Done => 0,
        }
    }

    /// Detection after `action`: a skip starts with the track list, any other
    /// action reads the current metadata.
    pub open spec fn begin(action: PlayerctlAction) -> (TrackChangeDetector, Probe) {
        if action.is_seek() {
            (TrackChangeDetector { stage: DetectStage::TrackList, baseline: None, attempts: 0, last: None }, Probe::TrackList)
        } else {
            (TrackChangeDetector { stage: DetectStage::Plain, baseline: None, attempts: 0, last: None }, Probe::Metadata)
        }
    }

    /// The detector after `obs`, and what comes next.
    ///
    /// A non-empty track list gives the answer from its first entry. Else the
    /// locator read after the skip becomes the baseline (no locator: no
    /// answer), and the metadata is read again, with a pause after each read
    /// that still shows the baseline, until the locator differs (that read is
    /// the answer) or `POLL_ATTEMPTS` reads have shown no change (the last
    /// read is the answer). A failed read ends detection with no answer.
    pub open spec fn advance(self, obs: Observation) -> (TrackChangeDetector, DetectStep) {
        let done = TrackChangeDetector { stage: DetectStage::Done, last: None, ..self };
        match (self.stage, obs) {
            (DetectStage::Plain, Observation::Metadata(m)) => (done, DetectStep::Found(m)),
            (DetectStage::TrackEntry, Observation::Metadata(m)) => (done, DetectStep::Found(m)),
            (DetectStage::TrackList, Observation::TrackList(Some(ids))) if ids.len() > 0 => (
                TrackChangeDetector { stage: DetectStage::TrackEntry, ..self },
                DetectStep::Ask(Probe::TrackMetadata(ids[0])),
            ),
            (DetectStage::TrackList, Observation::TrackList(_)) => (
                TrackChangeDetector { stage: DetectStage::Baseline, ..self },
                DetectStep::Ask(Probe::Metadata),
            ),
            (DetectStage::Baseline, Observation::Metadata(Some(m))) if m.url is Some => (
                TrackChangeDetector { stage: DetectStage::Polling, baseline: m.url, attempts: 0, ..self },
                DetectStep::Ask(Probe::Metadata),
            ),
            (DetectStage::Polling, Observation::Metadata(Some(m))) if m.url is Some => {
                if m.url->0@ != self.baseline->0@ {
                    (done, DetectStep::Found(Some(m)))
                } else {
                    (
                        TrackChangeDetector { stage: DetectStage::Pausing, last: Some(m), ..self },
                        DetectStep::Ask(Probe::Pause),
                    )
                }
            },
            (DetectStage::Pausing, Observation::Paused) => {
                if self.attempts + 1 >= POLL_ATTEMPTS {
                    (done, DetectStep::Found(self.last))
                } else {
                    (
                        TrackChangeDetector { stage: DetectStage::Polling, attempts: (self.attempts + 1) as u32, last: None, ..self },
                        DetectStep::Ask(Probe::Metadata),
                    )
                }
            },
            _ => (done, DetectStep::Found(None)),
        }
    }

    /// Starts detection after `action`; returns the detector and its first
    /// question.
    pub fn new(action: PlayerctlAction) -> (r: (TrackChangeDetector, Probe))
        ensures
            r == Self::begin(action),
            r.0.wf(),
    {
        if action.seeks() {
            (TrackChangeDetector { stage: DetectStage::TrackList, baseline: None, attempts: 0, last: None }, Probe::TrackList)
        } else {
            (TrackChangeDetector { stage: DetectStage::Plain, baseline: None, attempts: 0, last: None }, Probe::Metadata)
        }
    }

    /// Takes the answer to the last question. Each question asked brings the
    /// end closer: detection always finishes.
    pub fn step(&mut self, obs: Observation) -> (r: DetectStep)
        requires
            old(self).wf(),
        ensures
            (*final(self), r) == old(self).advance(obs),
            final(self).wf(),
            r is Ask ==> final(self).remaining() < old(self).remaining(),
            r is Found ==> final(self).stage == DetectStage::Done,
    {
        let stage = self.stage;
        match (stage, obs) {
            (DetectStage::Plain, Observation::Metadata(m)) | (DetectStage::TrackEntry, Observation::Metadata(m)) => {
                self.stage = DetectStage::Done;
                self.last = None;
                DetectStep::Found(m)
            },
            (DetectStage::TrackList, Observation::TrackList(ids)) => {
                match ids {
                    Some(ids) if ids.len() > 0 => {
                        self.stage = DetectStage::TrackEntry;
                        DetectStep::Ask(Probe::TrackMetadata(ids[0].clone()))
                    },
                    _ => {
                        self.stage = DetectStage::Baseline;
                        DetectStep::Ask(Probe::Metadata)
                    },
                }
            },
            (DetectStage::Baseline, Observation::Metadata(Some(m))) if m.url.is_some() => {
                self.stage = DetectStage::Polling;
                self.baseline = m.url;
                self.attempts = 0;
                DetectStep::Ask(Probe::Metadata)
            },
            (DetectStage::Polling, Observation::Metadata(Some(m))) if m.url.is_some() => {
                let changed = match (&m.url, &self.baseline) {
                    (Some(now), Some(before)) => !same_text(now.as_str(), before.as_str()),
                    _ => true,
                };
                if changed {
                    self.stage = DetectStage::Done;
                    self.last = None;
                    DetectStep::Found(Some(m))
                } else {
                    self.stage = DetectStage::Pausing;
                    self.last = Some(m);
                    DetectStep::Ask(Probe::Pause)
                }
            },
            (DetectStage::Pausing, Observation::Paused) => {
                if self.attempts + 1 >= POLL_ATTEMPTS {
                    self.stage = DetectStage::Done;
                    DetectStep::Found(self.last.take())
                } else {
                    self.stage = DetectStage::Polling;
                    self.attempts = self.attempts + 1;
                    self.last = None;
                    DetectStep::Ask(Probe::Metadata)
                }
            },
            _ => {
                self.stage = DetectStage::Done;
                self.last = None;
                DetectStep::Found(None)
            },
        }
    }
}

/// Detection starts well formed with at most `2 * POLL_ATTEMPTS + 3`
/// questions to come; since each `step` that asks lowers that bound, it
/// never waits without bound.
pub proof fn detection_is_bounded(action: PlayerctlAction)
    ensures
        TrackChangeDetector::begin(action).0.wf(),
        TrackChangeDetector::begin(action).0.remaining() <= 2 * POLL_ATTEMPTS + 3,
{
}

/// Answers the detector's questions from `reads`, one read per metadata
/// question from index `i` on, and every pause: the answer found (`None`
/// where the reads ran out first) and the number of pauses taken.
pub open spec fn poll_with(d: TrackChangeDetector, reads: Seq<TrackMetadata>, i: int) -> (Option<TrackMetadata>, nat)
    decreases reads.len() - i,
{
    if i < 0 || i >= reads.len() {
        (None, 0)
    } else {
        let (d1, s1) = d.advance(Observation::Metadata(Some(reads[i])));
        match s1 {
            DetectStep::Found(m) => (m, 0),
            DetectStep::Ask(Probe::Pause) => {
                let (d2, s2) = d1.advance(Observation::Paused);
                match s2 {
                    DetectStep::Found(m) => (m, 1),
                    DetectStep::Ask(Probe::Metadata) => {
                        let (m, n) = poll_with(d2, reads, i + 1);
                        (m, n + 1)
                    },
                    _ => (None, 1),
                }
            },
            _ => (None, 0),
        }
    }
}

/// The track's locator is `b`.
pub open spec fn shows(m: TrackMetadata, b: Seq<char>) -> bool {
    m.url is Some && m.url->0@ == b
}

/// Polling after a skip, when the locator first differs from the baseline at
/// read `n` (`n < POLL_ATTEMPTS`), reports that read after `n` pauses.
pub proof fn polling_reports_changed_track(d: TrackChangeDetector, reads: Seq<TrackMetadata>, n: int)
    requires
        d.stage == DetectStage::Polling,
        d.baseline is Some,
        d.attempts == 0,
        0 <= n < reads.len(),
        n < POLL_ATTEMPTS,
        forall|j: int| 0 <= j < n ==> shows(#[trigger] reads[j], d.baseline->0@),
        reads[n].url is Some,
        !shows(reads[n], d.baseline->0@),
    ensures
        poll_with(d, reads, 0) == (Some(reads[n]), n as nat),
{
    lemma_poll_changed(d, reads, 0, n);
}

proof fn lemma_poll_changed(d: TrackChangeDetector, reads: Seq<TrackMetadata>, i: int, n: int)
    requires
        d.stage == DetectStage::Polling,
        d.baseline is Some,
        d.attempts == i,
        0 <= i <= n < reads.len(),
        n < POLL_ATTEMPTS,
        forall|j: int| 0 <= j < n ==> shows(#[trigger] reads[j], d.baseline->0@),
        reads[n].url is Some,
        !shows(reads[n], d.baseline->0@),
    ensures
        poll_with(d, reads, i) == (Some(reads[n]), (n - i) as nat),
    decreases n - i,
{
    if i < n {
        assert(shows(reads[i], d.baseline->0@));
        let (d1, s1) = d.advance(Observation::Metadata(Some(reads[i])));
        let (d2, s2) = d1.advance(Observation::Paused);
        lemma_poll_changed(d2, reads, i + 1, n);
    }
}

/// Polling after a skip, when the locator never differs from the baseline,
/// reports the last read after exactly `POLL_ATTEMPTS` reads and pauses.
pub proof fn polling_gives_up_at_ceiling(d: TrackChangeDetector, reads: Seq<TrackMetadata>)
    requires
        d.stage == DetectStage::Polling,
        d.baseline is Some,
        d.attempts == 0,
        reads.len() >= POLL_ATTEMPTS,
        forall|j: int| 0 <= j < reads.len() ==> shows(#[trigger] reads[j], d.baseline->0@),
    ensures
        poll_with(d, reads, 0) == (Some(reads[POLL_ATTEMPTS - 1]), POLL_ATTEMPTS as nat),
{
    lemma_poll_unchanged(d, reads, 0);
}

proof fn lemma_poll_unchanged(d: TrackChangeDetector, reads: Seq<TrackMetadata>, i: int)
    requires
        d.stage == DetectStage::Polling,
        d.baseline is Some,
        d.attempts == i,
        0 <= i < POLL_ATTEMPTS,
        reads.len() >= POLL_ATTEMPTS,
        forall|j: int| 0 <= j < reads.len() ==> shows(#[trigger] reads[j], d.baseline->0@),
    ensures
        poll_with(d, reads, i) == (Some(reads[POLL_ATTEMPTS - 1]), (POLL_ATTEMPTS - i) as nat),
    decreases POLL_ATTEMPTS - i,
{
    assert(shows(reads[i], d.baseline->0@));
    let (d1, s1) = d.advance(Observation::Metadata(Some(reads[i])));
    let (d2, s2) = d1.advance(Observation::Paused);
    if i + 1 < POLL_ATTEMPTS {
        lemma_poll_unchanged(d2, reads, i + 1);
    }
}

} // verus!
