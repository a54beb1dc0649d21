//! Picking the player(s) to act on from a configured selector.

use vstd::prelude::*;
use vstd::string::*;

use crate::text::{contains_text, occurs_in, same_text};

verus! {

/// How to pick the player(s) to act on, as configured.
#[derive(Clone, Debug)]
pub enum PlayerctlDeviceRaw {
    /// The multiplexer's active player, else whichever player the
    /// discovery layer considers active.
    Auto,
    /// Every running player.
    All,
    /// The first running player whose bus name contains the text.
    Named(String),
    /// Advance the multiplexer's active player, then pick it.
    Shift,
    /// Move the multiplexer's active player back, then pick it.
    Unshift,
}

/// The player(s) picked, by bus name.
#[derive(Clone, Debug)]
pub enum PlayerctlDevice {
    All(Vec<String>),
    Single(String),
}

#[derive(Clone, Copy, Debug, PartialEq, Eq, Structural)]
pub enum ResolveError {
    /// No running player matches, or none is active.
    NoPlayerFound,
    /// The session bus or the multiplexer service cannot be reached, or it
    /// answered something that does not fit the question.
    BusUnreachable,
}

/// A question to the bus that resolution needs answered.
#[derive(Clone, Copy, Debug, PartialEq, Eq, Structural)]
pub enum BusQuery {
    /// The multiplexer's ordered list of players.
    PlayerNames,
    /// Advance the multiplexer's active player; its new name.
    Shift,
    /// Move the multiplexer's active player back; its new name.
    Unshift,
    /// The bus names of all running players, in enumeration order.
    EnumerateAll,
    /// The bus name of the player the discovery layer considers active.
    FindActive,
}

/// An answer to a `BusQuery`.
#[derive(Debug)]
pub enum BusReply {
    /// To `PlayerNames` and `EnumerateAll`.
    Names(Result<Vec<String>, ResolveError>),
    /// To `Shift`, `Unshift` and `FindActive`.
    Name(Result<String, ResolveError>),
}

#[derive(Debug)]
pub enum ResolveStep {
    Ask(BusQuery),
    Resolved(Result<PlayerctlDevice, ResolveError>),
}

/// The resolution of one selector, in progress.
#[derive(Clone, Debug)]
pub struct Resolver {
    pub selector: PlayerctlDeviceRaw,
    /// The text a player's bus name must contain, once known.
    pub wanted: Option<String>,
    /// The question awaiting an answer; `None` once resolved.
    pub pending: Option<BusQuery>,
}

/// The first index from `i` on whose name contains `id`.
pub open spec fn first_match_from(names: Seq<String>, id: Seq<char>, i: int) -> Option<int>
    decreases names.len() - i,
{
    if i < 0 || i >= names.len() {
        None
    } else if occurs_in(names[i]@, id) {
        Some(i)
    } else {
        first_match_from(names, id, i + 1)
    }
}

pub open spec fn first_match(names: Seq<String>, id: Seq<char>) -> Option<int> {
    first_match_from(names, id, 0)
}

/// What picking by name gives on an enumeration: the first player whose
/// bus name contains `id`, else `NoPlayerFound`.
pub open spec fn pick_named(names: Seq<String>, id: Seq<char>) -> Result<PlayerctlDevice, ResolveError> {
    match first_match(names, id) {
        Some(i) => Ok(PlayerctlDevice::Single(names[i])),
        None => Err(ResolveError::NoPlayerFound),
    }
}

/// The selector a configured text stands for: `""` and `"auto"` are `Auto`.
pub open spec fn selector_of(raw: String) -> PlayerctlDeviceRaw {
    if raw@ == "auto"@ || raw@ == ""@ {
        PlayerctlDeviceRaw::Auto
    } else if raw@ == "all"@ {
        PlayerctlDeviceRaw::All
    } else if raw@ == "shift"@ {
        PlayerctlDeviceRaw::Shift
    } else if raw@ == "unshift"@ {
        PlayerctlDeviceRaw::Unshift
    } else {
        PlayerctlDeviceRaw::Named(raw)
    }
}

impl PlayerctlDeviceRaw {
    /// Reads a configured selector; every text names one.
    pub fn from(player: String) -> (r: Result<Self, ()>)
        ensures
            r == Ok::<PlayerctlDeviceRaw, ()>(selector_of(player)),
    {
        if same_text(player.as_str(), "auto") || same_text(player.as_str(), "") {
            Ok(PlayerctlDeviceRaw::Auto)
        } else if same_text(player.as_str(), "all") {
            Ok(PlayerctlDeviceRaw::All)
        } else if same_text(player.as_str(), "shift") {
            Ok(PlayerctlDeviceRaw::Shift)
        } else if same_text(player.as_str(), "unshift") {
            Ok(PlayerctlDeviceRaw::Unshift)
        } else {
            Ok(PlayerctlDeviceRaw::Named(player))
        }
    }
}

/// The first of `names` that contains `id`.
pub fn find_named(names: &Vec<String>, id: &str) -> (r: Option<usize>)
    ensures
        match r {
            Some(i) => first_match(names@, id@) == Some(i as int) && i < names@.len(),
            None => first_match(names@, id@) is None,
        },
{
    let mut i: usize = 0;
    while i < names.len()
        invariant
            i <= names@.len(),
            first_match(names@, id@) == first_match_from(names@, id@, i as int),
        decreases names@.len() - i,
    {
        if contains_text(names[i].as_str(), id) {
            return Some(i);
        }
        i = i + 1;
    }
    None
}

impl Resolver {
    /// A fresh resolution and the first question it asks.
    pub open spec fn begin(selector: PlayerctlDeviceRaw) -> Resolver {
        match selector {
            PlayerctlDeviceRaw::Auto => Resolver { selector, wanted: None, pending: Some(BusQuery::PlayerNames) },
            PlayerctlDeviceRaw::All => Resolver { selector, wanted: None, pending: Some(BusQuery::EnumerateAll) },
            PlayerctlDeviceRaw::Named(id) => Resolver { selector, wanted: Some(id), pending: Some(BusQuery::EnumerateAll) },
            PlayerctlDeviceRaw::Shift => Resolver { selector, wanted: None, pending: Some(BusQuery::Shift) },
            PlayerctlDeviceRaw::Unshift => Resolver { selector, wanted: None, pending: Some(BusQuery::Unshift) },
        }
    }

    /// The resolver after `reply`, and what comes next.
    ///
    /// `Auto` asks the multiplexer for its players and picks the first by
    /// name; when the multiplexer fails, lists no player, or the name matches
    /// no running player, it falls back to the discovery layer's active
    /// player. `Shift` and `Unshift` pick the multiplexer's new active player
    /// by name. `All` takes the whole enumeration. Errors end resolution.
    pub open spec fn advance(self, reply: BusReply) -> (Resolver, ResolveStep) {
        let done = Resolver { pending: None, ..self };
        let ask = |q: BusQuery| (Resolver { pending: Some(q), ..self }, ResolveStep::Ask(q));
        let fail = |e: ResolveError| (done, ResolveStep::Resolved(Err(e)));
        match (self.pending, reply) {
            (Some(BusQuery::PlayerNames), BusReply::Names(Ok(list))) => if list.len() > 0 {
                (
                    Resolver { wanted: Some(list[0]), pending: Some(BusQuery::EnumerateAll), ..self },
                    ResolveStep::Ask(BusQuery::EnumerateAll),
                )
            } else {
                ask(BusQuery::FindActive)
            },
            (Some(BusQuery::PlayerNames), _) => ask(BusQuery::FindActive),
            (Some(BusQuery::Shift), BusReply::Name(Ok(name)))
            | (Some(BusQuery::Unshift), BusReply::Name(Ok(name))) => (
                Resolver { wanted: Some(name), pending: Some(BusQuery::EnumerateAll), ..self },
                ResolveStep::Ask(BusQuery::EnumerateAll),
            ),
            (Some(BusQuery::FindActive), BusReply::Name(Ok(name))) => (
                done,
                ResolveStep::Resolved(Ok(PlayerctlDevice::Single(name))),
            ),
            (Some(BusQuery::EnumerateAll), BusReply::Names(Ok(list))) => match self.selector {
                PlayerctlDeviceRaw::All => (done, ResolveStep::Resolved(Ok(PlayerctlDevice::All(list)))),
                _ => match self.wanted {
                    Some(id) => {
                        let picked = pick_named(list@, id@);
                        if picked is Err && self.selector is Auto {
                            ask(BusQuery::FindActive)
                        } else {
                            (done, ResolveStep::Resolved(picked))
                        }
                    },
                    None => fail(ResolveError::BusUnreachable),
                },
            },
            (Some(BusQuery::EnumerateAll), BusReply::Names(Err(e))) => if self.selector is Auto {
                ask(BusQuery::FindActive)
            } else {
                fail(e)
            },
            (Some(_), BusReply::Name(Err(e))) => fail(e),
            _ => fail(ResolveError::BusUnreachable),
        }
    }
}

impl Resolver {
    /// Starts resolving `selector`; the question to answer is in `pending`.
    pub fn new(selector: PlayerctlDeviceRaw) -> (r: Resolver)
        ensures
            r == Resolver::begin(selector),
    {
        match selector {
            PlayerctlDeviceRaw::Auto => Resolver { selector, wanted: None, pending: Some(BusQuery::PlayerNames) },
            PlayerctlDeviceRaw::All => Resolver { selector, wanted: None, pending: Some(BusQuery::EnumerateAll) },
            PlayerctlDeviceRaw::Named(id) => {
                let wanted = Some(id.clone());
                Resolver { selector: PlayerctlDeviceRaw::Named(id), wanted, pending: Some(BusQuery::EnumerateAll) }
            },
            PlayerctlDeviceRaw::Shift => Resolver { selector, wanted: None, pending: Some(BusQuery::Shift) },
            PlayerctlDeviceRaw::Unshift => Resolver { selector, wanted: None, pending: Some(BusQuery::Unshift) },
        }
    }

    /// Takes the answer to the pending question.
    pub fn step(&mut self, reply: BusReply) -> (r: ResolveStep)
        ensures
            (*final(self), r) == old(self).advance(reply),
    {
        let pending = self.pending;
        let auto = matches!(self.selector, PlayerctlDeviceRaw::Auto);
        match (pending, reply) {
            (Some(BusQuery::PlayerNames), BusReply::Names(Ok(list))) => {
                if list.len() > 0 {
                    self.wanted = Some(list[0].clone());
                    self.pending = Some(BusQuery::EnumerateAll);
                    ResolveStep::Ask(BusQuery::EnumerateAll)
                } else {
                    self.pending = Some(BusQuery::FindActive);
                    ResolveStep::Ask(BusQuery::FindActive)
                }
            },
            (Some(BusQuery::PlayerNames), _) => {
                self.pending = Some(BusQuery::FindActive);
                ResolveStep::Ask(BusQuery::FindActive)
            },
            (Some(BusQuery::Shift), BusReply::Name(Ok(name)))
            | (Some(BusQuery::Unshift), BusReply::Name(Ok(name))) => {
                self.wanted = Some(name);
                self.pending = Some(BusQuery::EnumerateAll);
                ResolveStep::Ask(BusQuery::EnumerateAll)
            },
            (Some(BusQuery::FindActive), BusReply::Name(Ok(name))) => {
                self.pending = None;
                ResolveStep::Resolved(Ok(PlayerctlDevice::Single(name)))
            },
            (Some(BusQuery::EnumerateAll), BusReply::Names(Ok(list))) => {
                if matches!(self.selector, PlayerctlDeviceRaw::All) {
                    self.pending = None;
                    return ResolveStep::Resolved(Ok(PlayerctlDevice::All(list)));
                }
                let found = match &self.wanted {
                    Some(id) => find_named(&list, id.as_str()),
                    None => {
                        self.pending = None;
                        return ResolveStep::Resolved(Err(ResolveError::BusUnreachable));
                    },
                };
                match found {
                    Some(i) => {
                        self.pending = None;
                        let name = list[i].clone();
                        ResolveStep::Resolved(Ok(PlayerctlDevice::Single(name)))
                    },
                    None => {
                        if auto {
                            self.pending = Some(BusQuery::FindActive);
                            ResolveStep::Ask(BusQuery::FindActive)
                        } else {
                            self.pending = None;
                            ResolveStep::Resolved(Err(ResolveError::NoPlayerFound))
                        }
                    },
                }
            },
            (Some(BusQuery::EnumerateAll), BusReply::Names(Err(e))) => {
                if auto {
                    self.pending = Some(BusQuery::FindActive);
                    ResolveStep::Ask(BusQuery::FindActive)
                } else {
                    self.pending = None;
                    ResolveStep::Resolved(Err(e))
                }
            },
            (Some(_), BusReply::Name(Err(e))) => {
                self.pending = None;
                ResolveStep::Resolved(Err(e))
            },
            _ => {
                self.pending = None;
                ResolveStep::Resolved(Err(ResolveError::BusUnreachable))
            },
        }
    }
}

proof fn lemma_no_match_from(names: Seq<String>, id: Seq<char>, i: int)
    requires
        0 <= i,
        forall|k: int| 0 <= k < names.len() ==> !occurs_in(#[trigger] names[k]@, id),
    ensures
        first_match_from(names, id, i) is None,
    decreases names.len() - i,
{
    if i < names.len() {
        lemma_no_match_from(names, id, i + 1);
    }
}

/// Picking by name, when no running player's bus name contains the text,
/// fails with `NoPlayerFound`.
pub proof fn named_without_match_fails(id: String, running: Vec<String>)
    requires
        forall|k: int| 0 <= k < running@.len() ==> !occurs_in(#[trigger] running@[k]@, id@),
    ensures
        Resolver::begin(PlayerctlDeviceRaw::Named(id)).pending == Some(BusQuery::EnumerateAll),
        Resolver::begin(PlayerctlDeviceRaw::Named(id)).advance(BusReply::Names(Ok(running))).1
            == ResolveStep::Resolved(Err(ResolveError::NoPlayerFound)),
{
    lemma_no_match_from(running@, id@, 0);
}

/// `Auto` turns to the discovery layer's active player when the
/// multiplexer cannot be reached, lists no player, or lists first a name
/// that no running player's bus name contains.
pub proof fn auto_falls_back_to_active(
    e: ResolveError,
    none_listed: Vec<String>,
    listed: Vec<String>,
    running: Vec<String>,
)
    requires
        none_listed@.len() == 0,
        listed@.len() > 0,
        forall|k: int| 0 <= k < running@.len() ==> !occurs_in(#[trigger] running@[k]@, listed@[0]@),
    ensures
        Resolver::begin(PlayerctlDeviceRaw::Auto).advance(BusReply::Names(Err(e))).1
            == ResolveStep::Ask(BusQuery::FindActive),
        Resolver::begin(PlayerctlDeviceRaw::Auto).advance(BusReply::Names(Ok(none_listed))).1
            == ResolveStep::Ask(BusQuery::FindActive),
        ({
            let (r, s) = Resolver::begin(PlayerctlDeviceRaw::Auto).advance(BusReply::Names(Ok(listed)));
            &&& s == ResolveStep::Ask(BusQuery::EnumerateAll)
            &&& r.advance(BusReply::Names(Ok(running))).1 == ResolveStep::Ask(BusQuery::FindActive)
        }),
{
    lemma_no_match_from(running@, listed@[0]@, 0);
}

} // verus!
