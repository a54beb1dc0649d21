//! One invocation: merging what the targeted players gave.

use vstd::prelude::*;
use vstd::string::*;

use crate::action::{icon_name, IconToken, PlayerError, PlayerctlAction};
use crate::device::{BusReply, PlayerctlDevice, PlayerctlDeviceRaw, ResolveStep, Resolver};
use crate::label::{format_label, label_text, opt_view};
use crate::track::TrackMetadata;

verus! {

/// What one targeted player gave: the outcome of the action, and the
/// metadata detected on it, if it was asked for.
#[derive(Debug)]
pub struct PlayerReport {
    pub icon: Result<IconToken, PlayerError>,
    pub metadata: Option<TrackMetadata>,
}

/// Whether a report's metadata may give the label: with a single target only
/// when the action succeeded on it; with several, whenever there is some.
pub open spec fn usable(single: bool, r: PlayerReport) -> bool {
    r.metadata is Some && (!single || r.icon is Ok)
}

/// The icon of the first report from `i` on whose action succeeded.
pub open spec fn first_icon_from(rs: Seq<PlayerReport>, i: int) -> Option<IconToken>
    decreases rs.len() - i,
{
    if i < 0 || i >= rs.len() {
        None
    } else if rs[i].icon is Ok {
        Some(rs[i].icon->Ok_0)
    } else {
        first_icon_from(rs, i + 1)
    }
}

/// The metadata of the first usable report from `i` on.
pub open spec fn first_metadata_from(single: bool, rs: Seq<PlayerReport>, i: int) -> Option<TrackMetadata>
    decreases rs.len() - i,
{
    if i < 0 || i >= rs.len() {
        None
    } else if usable(single, rs[i]) {
        rs[i].metadata
    } else {
        first_metadata_from(single, rs, i + 1)
    }
}

pub open spec fn merged_icon(rs: Seq<PlayerReport>) -> Seq<char> {
    match first_icon_from(rs, 0) {
        Some(t) => icon_name(t),
        None => Seq::empty(),
    }
}

/// One invocation of an action on the resolved player(s), and its outcome.
#[derive(Debug)]
pub struct Playerctl {
    pub player: PlayerctlDevice,
    pub action: PlayerctlAction,
    /// The icon's name, once run: empty where the action succeeded nowhere.
    pub icon: Option<String>,
    /// The label, once run: absent where no target gave metadata.
    pub label: Option<String>,
    /// The configured label template.
    pub fmt_str: Option<String>,
}

impl Playerctl {
    pub open spec fn is_single(self) -> bool {
        self.player is Single
    }

    pub fn new(action: PlayerctlAction, player: PlayerctlDevice, fmt_str: Option<String>) -> (r: Playerctl)
        ensures
            r.player == player,
            r.action == action,
            r.fmt_str == fmt_str,
            r.icon is None,
            r.label is None,
    {
        Playerctl { player, action, icon: None, label: None, fmt_str }
    }

    /// Whether metadata should be detected on the player just dispatched to:
    /// only while no earlier target gave some, and with a single target only
    /// when the action succeeded.
    pub fn wants_metadata(&self, found: bool, dispatched_ok: bool) -> (r: bool)
        ensures
            r == (!found && (!self.is_single() || dispatched_ok)),
    {
        let single = matches!(self.player, PlayerctlDevice::Single(_));
        !found && (!single || dispatched_ok)
    }

    /// Merges the reports of the targets, in enumeration order: the icon of
    /// the first success, and the label of the first usable metadata.
    /// Failures of single targets are absorbed.
    pub fn run(&mut self, reports: Vec<PlayerReport>)
        ensures
            final(self).player == old(self).player,
            final(self).action == old(self).action,
            final(self).fmt_str == old(self).fmt_str,
            final(self).icon is Some,
            final(self).icon->0@ == merged_icon(reports@),
            opt_view(final(self).label) == match first_metadata_from(old(self).is_single(), reports@, 0) {
                Some(m) => label_text(opt_view(old(self).fmt_str), m),
                None => None,
            },
    {
        let ghost all = reports@;
        let single = matches!(self.player, PlayerctlDevice::Single(_));
        let mut reports = reports;
        let mut icon: Option<IconToken> = None;
        let mut metadata: Option<TrackMetadata> = None;
        while reports.len() > 0
            invariant
                single == old(self).is_single(),
                reports@ == all.subrange(0, reports@.len() as int),
                reports@.len() <= all.len(),
                icon == first_icon_from(all, reports@.len() as int),
                metadata == first_metadata_from(single, all, reports@.len() as int),
            decreases reports@.len(),
        {
            let ghost k = reports@.len() - 1;
            match reports.pop() {
                Some(report) => {
                    assert(report == all[k]);
                    let ok = report.icon.is_ok();
                    if let Ok(t) = report.icon {
                        icon = Some(t);
                    }
                    if report.metadata.is_some() && (!single || ok) {
                        metadata = report.metadata;
                    }
                },
                None => {},
            }
        }
        self.icon = match icon {
            Some(t) => Some(String::from_str(t.name())),
            None => Some(String::new()),
        };
        self.label = match metadata {
            Some(m) => self.fmt_string(&m),
            None => None,
        };
    }

    /// The label for a track, under the configured template; `None` where
    /// neither it nor the default template renders.
    pub fn fmt_string(&self, metadata: &TrackMetadata) -> (r: Option<String>)
        ensures
            opt_view(r) == label_text(opt_view(self.fmt_str), *metadata),
    {
        format_label(&self.fmt_str, metadata)
    }
}

/// The icon comes from the first target whose action succeeded, whatever
/// the targets before and after it gave.
pub proof fn first_success_wins(rs: Seq<PlayerReport>, k: int)
    requires
        0 <= k < rs.len(),
        rs[k].icon is Ok,
        forall|j: int| 0 <= j < k ==> (#[trigger] rs[j]).icon is Err,
    ensures
        merged_icon(rs) == icon_name(rs[k].icon->Ok_0),
{
    lemma_first_icon_at(rs, 0, k);
}

proof fn lemma_first_icon_at(rs: Seq<PlayerReport>, i: int, k: int)
    requires
        0 <= i <= k < rs.len(),
        rs[k].icon is Ok,
        forall|j: int| 0 <= j < k ==> (#[trigger] rs[j]).icon is Err,
    ensures
        first_icon_from(rs, i) == Some(rs[k].icon->Ok_0),
    decreases k - i,
{
    if i < k {
        lemma_first_icon_at(rs, i + 1, k);
    }
}

/// With no running player, `All` resolves to an empty set of targets, and
/// merging no reports gives the empty icon and no label.
pub proof fn no_players_no_outcome(running: Vec<String>, single: bool)
    requires
        running@.len() == 0,
    ensures
        Resolver::begin(PlayerctlDeviceRaw::All).advance(BusReply::Names(Ok(running))).1
            == ResolveStep::Resolved(Ok(PlayerctlDevice::All(running))),
        merged_icon(Seq::<PlayerReport>::empty()) == Seq::<char>::empty(),
        first_metadata_from(single, Seq::<PlayerReport>::empty(), 0) is None,
{
}

} // verus!
