//! The search for players on the local network, as a state machine.
//!
//! The machine decides; it does not listen. Whoever runs a search hands each
//! advertisement to [`Discovery::advertise`], which says whether to go on
//! listening, and calls [`Discovery::finish`] when the time is up or the
//! search has halted. Every method takes the machine by exclusive reference,
//! so no two calls overlap: of the callers that ask for a search while none
//! is under way, the first to get hold of the machine starts it and each
//! other one is refused.
use crate::error::{Error, ErrorView};
use crate::responses::{sync_status_views, SyncStatus, SyncStatusView};
use vstd::prelude::*;
use vstd::string::*;

verus! {

/// Where a search stands.
#[derive(Debug, Clone, Copy, PartialEq, Eq, Structural)]
pub enum Phase {
    /// No search is under way. The state at rest, before a search and after
    /// each one, however it ended.
    Idle,
    /// A search is listening for advertisements.
    Searching,
    /// A search was told to stop and has not halted yet.
    Cancelling,
}

/// The search coordinator. It admits one search at a time, gathers the
/// players that advertise themselves, one entry for each player id, and lets
/// a running search be told to stop.
#[derive(Debug)]
pub struct Discovery {
    phase: Phase,
    timeout: u64,
    found: Vec<SyncStatus>,
}

/// Mathematical model of [`Discovery`].
pub struct DiscoveryView {
    pub phase: Phase,
    /// How long the search under way may listen, as given to `start`.
    pub timeout: u64,
    /// The players found so far, in the order in which each was first seen.
    pub found: Seq<SyncStatusView>,
}

impl View for Discovery {
    type V = DiscoveryView;

    closed spec fn view(&self) -> DiscoveryView {
        DiscoveryView {
            phase: self.phase,
            timeout: self.timeout,
            found: sync_status_views(self.found@),
        }
    }
}

/// No two of the players have the same id.
pub open spec fn distinct_ids(found: Seq<SyncStatusView>) -> bool {
    forall|i: int, j: int| 0 <= i < j < found.len() ==> found[i].mac != found[j].mac
}

/// What holds of a coordinator at all times: each player id occurs once,
/// and at rest nothing is kept of an earlier search.
pub open spec fn well_formed(m: DiscoveryView) -> bool {
    &&& distinct_ids(m.found)
    &&& m.phase == Phase::Idle ==> m.found.len() == 0
}

/// A player with the id `mac` is among those found.
pub open spec fn holds(found: Seq<SyncStatusView>, mac: Seq<char>) -> bool {
    exists|i: int| 0 <= i < found.len() && (#[trigger] found[i]).mac == mac
}

/// Where the player with the id `mac` stands among those found.
pub open spec fn place_of(found: Seq<SyncStatusView>, mac: Seq<char>) -> int {
    choose|i: int| 0 <= i < found.len() && (#[trigger] found[i]).mac == mac
}

/// How many of the players have the id `mac`.
pub open spec fn count_of(found: Seq<SyncStatusView>, mac: Seq<char>) -> nat
    decreases found.len(),
{
    if found.len() == 0 {
        0
    } else {
        count_of(found.drop_last(), mac) + if found.last().mac == mac {
            1nat
        } else {
            0nat
        }
    }
}

/// The players found, after one more advertisement: a player seen before is
/// replaced where it stands by what it says now, a new one is added last.
pub open spec fn merged(found: Seq<SyncStatusView>, player: SyncStatusView) -> Seq<SyncStatusView> {
    if holds(found, player.mac) {
        found.update(place_of(found, player.mac), player)
    } else {
        found.push(player)
    }
}

/// A coordinator at rest.
pub open spec fn at_rest(timeout: u64) -> DiscoveryView {
    DiscoveryView { phase: Phase::Idle, timeout, found: Seq::empty() }
}

/// Asking for a search: granted at rest, refused otherwise, and then nothing
/// changes.
pub open spec fn started(m: DiscoveryView, timeout: u64) -> (DiscoveryView, Result<(), ErrorView>) {
    if m.phase == Phase::Idle {
        (DiscoveryView { phase: Phase::Searching, timeout, found: Seq::empty() }, Ok(()))
    } else {
        (m, Err(ErrorView::AlreadyDiscovering))
    }
}

/// An advertisement: merged while searching, passed over otherwise.
pub open spec fn advertised(m: DiscoveryView, player: SyncStatusView) -> DiscoveryView {
    if m.phase == Phase::Searching {
        DiscoveryView { found: merged(m.found, player), ..m }
    } else {
        m
    }
}

/// Telling the search to stop: possible once while it is searching; where
/// none is listening the signal cannot be delivered, and nothing changes.
pub open spec fn cancelled(m: DiscoveryView) -> (DiscoveryView, Result<(), ErrorView>) {
    if m.phase == Phase::Searching {
        (DiscoveryView { phase: Phase::Cancelling, ..m }, Ok(()))
    } else {
        (m, Err(ErrorView::CancelError))
    }
}

/// The end of a search, by time or by halting: the coordinator is at rest
/// again, and the outcome is the players found, or a failure where there is
/// none.
pub open spec fn finished(m: DiscoveryView) -> (DiscoveryView, Result<Seq<SyncStatusView>, ErrorView>) {
    (
        at_rest(m.timeout),
        if m.found.len() > 0 {
            Ok(m.found)
        } else {
            Err(ErrorView::NoBluOSError)
        },
    )
}

/// An id that no player has is counted zero times, and where no two players
/// share an id, the id of each is counted once.
proof fn lemma_count_distinct(found: Seq<SyncStatusView>, mac: Seq<char>)
    requires
        distinct_ids(found),
    ensures
        holds(found, mac) ==> count_of(found, mac) == 1,
        !holds(found, mac) ==> count_of(found, mac) == 0,
    decreases found.len(),
{
    if found.len() > 0 {
        let front = found.drop_last();
        assert(distinct_ids(front)) by {
            assert forall|i: int, j: int| 0 <= i < j < front.len() implies front[i].mac != front[j].mac by {
                assert(front[i] == found[i] && front[j] == found[j]);
            }
        }
        lemma_count_distinct(front, mac);
        if holds(front, mac) {
            let i = place_of(front, mac);
            assert(front[i] == found[i]);
            assert(found[i].mac == mac);
            assert(found.last().mac != mac);
        } else if found.last().mac == mac {
            assert(found[found.len() - 1].mac == mac);
        } else {
            if holds(found, mac) {
                let i = place_of(found, mac);
                assert(i < front.len());
                assert(front[i] == found[i]);
            }
        }
    }
}

/// Merging keeps each id once; the player merged is among those found, as it
/// was advertised; and the number of players grows by one for a new id and
/// not at all for a known one.
pub proof fn law_merge_keeps_one_entry(found: Seq<SyncStatusView>, player: SyncStatusView)
    requires
        distinct_ids(found),
    ensures
        distinct_ids(merged(found, player)),
        count_of(merged(found, player), player.mac) == 1,
        holds(merged(found, player), player.mac),
        merged(found, player)[place_of(merged(found, player), player.mac)] == player,
        merged(found, player).len() == found.len() + if holds(found, player.mac) {
            0int
        } else {
            1int
        },
{
    let after = merged(found, player);
    if holds(found, player.mac) {
        let at = place_of(found, player.mac);
        assert forall|i: int, j: int| 0 <= i < j < after.len() implies after[i].mac != after[j].mac by {
            assert(after[i].mac == found[i].mac);
            assert(after[j].mac == found[j].mac);
        }
        assert(after[at].mac == player.mac);
    } else {
        assert forall|i: int, j: int| 0 <= i < j < after.len() implies after[i].mac != after[j].mac by {
            if j < found.len() {
                assert(after[i] == found[i] && after[j] == found[j]);
            } else {
                assert(after[i] == found[i]);
                assert(found[i].mac != player.mac);
            }
        }
        assert(after[found.len() as int].mac == player.mac);
    }
    lemma_count_distinct(after, player.mac);
    let p = place_of(after, player.mac);
    if after[p] != player {
        if holds(found, player.mac) {
            let at = place_of(found, player.mac);
            assert(after[at] == player);
            assert(p != at);
            assert(after[p].mac == after[at].mac);
        } else {
            assert(after[found.len() as int] == player);
            assert(p != found.len());
            assert(after[p].mac == after[found.len() as int].mac);
        }
    }
}

/// Every step leaves a well-formed coordinator well-formed.
pub proof fn law_steps_keep_well_formed(m: DiscoveryView, timeout: u64, player: SyncStatusView)
    requires
        well_formed(m),
    ensures
        well_formed(started(m, timeout).0),
        well_formed(advertised(m, player)),
        well_formed(cancelled(m).0),
        well_formed(finished(m).0),
{
    law_merge_keeps_one_entry(m.found, player);
}

/// Of two requests for a search that reach the coordinator one after the
/// other, with nothing in between, at most one is granted; at rest it is the
/// first, which starts the search, and the second is refused and changes
/// nothing. Which of two callers comes first does not matter: the machine
/// asks only its own state.
pub proof fn law_one_start_wins(m: DiscoveryView, first: u64, second: u64)
    ensures
        !(started(m, first).1 is Ok && started(started(m, first).0, second).1 is Ok),
        m.phase == Phase::Idle ==> {
            &&& started(m, first).1 is Ok
            &&& started(m, first).0.phase == Phase::Searching
            &&& started(started(m, first).0, second).1 == Err::<(), ErrorView>(
                ErrorView::AlreadyDiscovering,
            )
            &&& started(started(m, first).0, second).0 == started(m, first).0
        },
        m.phase != Phase::Idle ==> started(m, first) == (
            m,
            Err::<(), ErrorView>(ErrorView::AlreadyDiscovering),
        ),
{
}

/// Once a search has ended, telling it to stop fails, and the coordinator
/// stays at rest.
pub proof fn law_cancel_after_the_end(m: DiscoveryView)
    ensures
        cancelled(finished(m).0) == (
            finished(m).0,
            Err::<(), ErrorView>(ErrorView::CancelError),
        ),
        finished(m).0.phase == Phase::Idle,
{
}

/// A search can be told to stop once: the second signal finds none
/// listening.
pub proof fn law_cancel_once(m: DiscoveryView)
    ensures
        cancelled(cancelled(m).0).1 == Err::<(), ErrorView>(ErrorView::CancelError),
{
}

/// A search that hears no advertisement ends with the failure that no player
/// was found.
pub proof fn law_silent_search_finds_nothing(m: DiscoveryView, timeout: u64)
    requires
        m.phase == Phase::Idle,
    ensures
        finished(started(m, timeout).0).1 == Err::<Seq<SyncStatusView>, ErrorView>(
            ErrorView::NoBluOSError,
        ),
{
}

/// A search that hears two advertisements of one player id, and no other,
/// ends with one player: the one advertised last.
pub proof fn law_same_player_twice(
    m: DiscoveryView,
    timeout: u64,
    first: SyncStatusView,
    second: SyncStatusView,
)
    requires
        m.phase == Phase::Idle,
        first.mac == second.mac,
    ensures
        finished(advertised(advertised(started(m, timeout).0, first), second)).1 == Ok::<
            Seq<SyncStatusView>,
            ErrorView,
        >(seq![second]),
{
    let searching = started(m, timeout).0;
    let once = advertised(searching, first);
    assert(!holds(searching.found, first.mac));
    assert(once.found =~= seq![first]);
    assert(once.found[0].mac == second.mac);
    assert(holds(once.found, second.mac));
    let twice = advertised(once, second);
    assert(twice.found =~= seq![second]);
}

impl Discovery {
    /// What holds of this coordinator at all times.
    pub open spec fn wf(&self) -> bool {
        well_formed(self@)
    }

    /// A coordinator at rest.
    pub fn new() -> (r: Discovery)
        ensures
            r.wf(),
            r@ == at_rest(0),
    {
        let r = Discovery { phase: Phase::Idle, timeout: 0, found: Vec::new() };
        assert(r@.found =~= Seq::empty());
        r
    }

    /// Where the search stands.
    pub fn phase(&self) -> (r: Phase)
        ensures
            r == self@.phase,
    {
        self.phase
    }

    /// How long the search may listen, as given to the last `start` that was
    /// granted.
    pub fn timeout(&self) -> (r: u64)
        ensures
            r == self@.timeout,
    {
        self.timeout
    }

    /// The players found so far.
    pub fn found(&self) -> (r: &Vec<SyncStatus>)
        ensures
            sync_status_views(r@) == self@.found,
    {
        &self.found
    }

    /// Asks for a search that may listen for `timeout`. Granted at rest;
    /// refused with `AlreadyDiscovering` while a search is under way, which
    /// goes on undisturbed.
    pub fn start(&mut self, timeout: u64) -> (r: Result<(), Error>)
        requires
            old(self).wf(),
        ensures
            final(self).wf(),
            final(self)@ == started(old(self)@, timeout).0,
            match r {
                Ok(_) => started(old(self)@, timeout).1 is Ok,
                Err(e) => started(old(self)@, timeout).1 == Err::<(), ErrorView>(e@),
            },
    {
        match self.phase {
            Phase::Idle => {
                self.phase = Phase::Searching;
                self.timeout = timeout;
                self.found = Vec::new();
                assert(self@.found =~= Seq::empty());
                Ok(())
            },
            _ => Err(Error::AlreadyDiscovering),
        }
    }

    /// Takes in one advertisement and says whether the search is to go on
    /// listening: it is, while nobody has told it to stop.
    pub fn advertise(&mut self, player: SyncStatus) -> (listening: bool)
        requires
            old(self).wf(),
        ensures
            final(self).wf(),
            final(self)@ == advertised(old(self)@, player@),
            listening == (old(self)@.phase == Phase::Searching),
    {
        match self.phase {
            Phase::Searching => {},
            _ => {
                return false;
            },
        }
        let ghost before = self@.found;
        proof {
            law_merge_keeps_one_entry(before, player@);
        }
        let n = self.found.len();
        let mut i: usize = 0;
        while i < n
            invariant
                0 <= i <= n,
                n == self.found@.len(),
                *self == *old(self),
                before == self@.found,
                distinct_ids(before),
                self@.phase == Phase::Searching,
                forall|k: int| 0 <= k < i ==> (#[trigger] before[k]).mac != player@.mac,
            decreases n - i,
        {
            assert(before[i as int] == self.found@[i as int]@);
            if self.found[i].mac == player.mac {
                assert(holds(before, player@.mac));
                assert(place_of(before, player@.mac) == i) by {
                    let p = place_of(before, player@.mac);
                    if p < i {
                        assert(before[p].mac != player@.mac);
                    } else if p > i {
                        assert(before[i as int].mac != before[p].mac);
                    }
                }
                self.found[i] = player;
                assert(self@.found =~= before.update(i as int, player@));
                return true;
            }
            i = i + 1;
        }
        assert(!holds(before, player@.mac));
        self.found.push(player);
        assert(self@.found =~= before.push(player@));
        true
    }

    /// Tells the search under way to stop. The search halts at its next
    /// advertisement or when its time is up, whichever comes first. Fails
    /// with `CancelError` where no search is listening: none was started,
    /// it has ended, or it was told to stop before.
    pub fn cancel(&mut self) -> (r: Result<(), Error>)
        requires
            old(self).wf(),
        ensures
            final(self).wf(),
            final(self)@ == cancelled(old(self)@).0,
            match r {
                Ok(_) => cancelled(old(self)@).1 is Ok,
                Err(e) => cancelled(old(self)@).1 == Err::<(), ErrorView>(e@),
            },
    {
        match self.phase {
            Phase::Searching => {
                self.phase = Phase::Cancelling;
                Ok(())
            },
            _ => Err(Error::CancelError),
        }
    }

    /// Ends the search, when its time is up or when it has halted: the
    /// coordinator is at rest again, and the players found are handed out,
    /// or `NoBluOSError` where there is none.
    pub fn finish(&mut self) -> (r: Result<Vec<SyncStatus>, Error>)
        requires
            old(self).wf(),
        ensures
            final(self).wf(),
            final(self)@ == finished(old(self)@).0,
            match r {
                Ok(players) => finished(old(self)@).1 == Ok::<Seq<SyncStatusView>, ErrorView>(
                    sync_status_views(players@),
                ),
                Err(e) => finished(old(self)@).1 == Err::<Seq<SyncStatusView>, ErrorView>(e@),
            },
    {
        let mut players: Vec<SyncStatus> = Vec::new();
        std::mem::swap(&mut self.found, &mut players);
        self.phase = Phase::Idle;
        assert(self@.found =~= Seq::empty());
        if players.len() > 0 {
            Ok(players)
        } else {
            Err(Error::NoBluOSError)
        }
    }
}

} // verus!
