//! The registry of active players.
//!
//! A [`VideoPlayerCollection`] maps player identifiers to players;
//! duplicate identifiers are rejected at insertion, never overwritten. The
//! collection is designed for exclusive access: the embedding shell holds
//! one lock around every operation, which serializes all players against
//! each other.

use vstd::prelude::*;
use vstd::string::StringExecFns;

use crate::events::Action;
use crate::events::EventPayload;
use crate::events::OutwardEvent;
use crate::ident::id_of;
use crate::player::VideoPlayer;
use crate::player::close_actions;
use crate::player::closed_state;
use crate::player::event_actions;
use crate::player::event_emits_closed;
use crate::player::event_live;
use crate::player::event_state;
use crate::player::open_actions;
use crate::player::opened_state;

verus! {

/// Whether some player in the sequence bears the given name.
pub open spec fn contains_name(s: Seq<VideoPlayer>, n: Seq<char>) -> bool {
    exists|i: int| 0 <= i < s.len() && s[i].name@ == n
}

/// The registry's invariant: names are pairwise distinct and every player
/// is well-formed.
pub open spec fn registry_wf(s: Seq<VideoPlayer>) -> bool {
    &&& (forall|i: int, j: int| 0 <= i < j < s.len() ==> s[i].name@ != s[j].name@)
    &&& (forall|i: int| 0 <= i < s.len() ==> s[i].wf())
}

/// The teardown actions of closing every player in the sequence, in
/// registry order.
pub open spec fn close_all_actions(s: Seq<VideoPlayer>) -> Seq<Action>
    decreases s.len(),
{
    if s.len() == 0 {
        Seq::empty()
    } else {
        close_all_actions(s.drop_last()) + close_actions(s.last())
    }
}

/// A freshly opened player for `url`: identifier derived from the URL, a
/// window at the opening dimensions, and no pipeline yet.
pub open spec fn is_fresh_open(p: VideoPlayer, url: Seq<char>) -> bool {
    &&& p.name@ == id_of(url)
    &&& p.url@ == url
    &&& p.window
    &&& !p.pipeline
    &&& !p.video_overlay
    &&& p.width == 404
    &&& p.height == 324
    &&& p.phase is WindowOpen
}

/// A freshly registered player's identifier is present in the registry, so
/// a second registration under the same identifier is rejected as a
/// duplicate and leaves the registry unchanged.
pub proof fn lemma_pushed_name_present(s: Seq<VideoPlayer>, p: VideoPlayer)
    ensures
        contains_name(s.push(opened_state(p)), p.name@),
{
    assert(s.push(opened_state(p))[s.len() as int].name@ == p.name@);
}

/// After the registry's two-phase eviction of the player at `i`, no player
/// bears its name: identifiers are unique, so eviction removes the only
/// entry with that identifier.
pub proof fn lemma_removed_absent(s: Seq<VideoPlayer>, i: int, n: Seq<char>)
    requires
        registry_wf(s),
        0 <= i < s.len(),
        s[i].name@ == n,
    ensures
        !contains_name(s.remove(i), n),
{
    assert forall|j: int| 0 <= j < s.remove(i).len() implies s.remove(i)[j].name@ != n by {
        if j < i {
            assert(s.remove(i)[j] == s[j]);
        } else {
            assert(s.remove(i)[j] == s[j + 1]);
        }
    }
}

/// What a registry dispatch hands back: whether the addressed player
/// exists, and the side effects of its transition.
pub struct DispatchOutcome {
    /// Whether a player with the addressed identifier was found.
    pub handled: bool,
    /// Toolkit and engine side effects, in order.
    pub actions: Vec<Action>,
    /// Messages for the front end, in order.
    pub outward: Vec<OutwardEvent>,
}

/// The collection of active players, keyed by player identifier.
pub struct VideoPlayerCollection {
    players: Vec<VideoPlayer>,
}

impl View for VideoPlayerCollection {
    type V = Seq<VideoPlayer>;

    closed spec fn view(&self) -> Seq<VideoPlayer> {
        self.players@
    }
}

impl VideoPlayerCollection {
    /// The collection's invariant.
    pub open spec fn wf(&self) -> bool {
        registry_wf(self@)
    }

    /// An empty registry.
    pub fn new() -> (r: VideoPlayerCollection)
        ensures
            r@ == Seq::<VideoPlayer>::empty(),
            r.wf(),
    {
        VideoPlayerCollection { players: Vec::new() }
    }

    /// The number of active players.
    pub fn len(&self) -> (r: usize)
        ensures
            r == self@.len(),
    {
        self.players.len()
    }

    /// The position of the player named `id`, where one exists.
    fn index_of(&self, id: &str) -> (r: Option<usize>)
        ensures
            match r {
                Some(i) => i < self@.len() && self@[i as int].name@ == id@,
                None => !contains_name(self@, id@),
            },
    {
        let key: String = id.to_owned();
        let mut i: usize = 0;
        while i < self.players.len()
            invariant
                i <= self@.len(),
                key@ == id@,
                forall|j: int| 0 <= j < i ==> self@[j].name@ != id@,
            decreases self@.len() - i,
        {
            let p = &self.players[i];
            if p.name == key {
                return Some(i);
            }
            i = i + 1;
        }
        None
    }

    /// Whether a player named `id` is active.
    pub fn contains_player(&self, id: &str) -> (r: bool)
        ensures
            r == contains_name(self@, id@),
    {
        match self.index_of(id) {
            Some(i) => {
                proof {
                    assert(contains_name(self@, id@)) by {
                        assert(self@[i as int].name@ == id@);
                    }
                }
                true
            },
            None => false,
        }
    }

    /// The player named `id`, where one exists.
    pub fn get_player(&self, id: &str) -> (r: Option<&VideoPlayer>)
        ensures
            (r is Some) == contains_name(self@, id@),
            r matches Some(p) ==> exists|i: int|
                0 <= i < self@.len() && self@[i].name@ == id@ && *p == self@[i],
    {
        match self.index_of(id) {
            Some(i) => {
                proof {
                    assert(contains_name(self@, id@)) by {
                        assert(self@[i as int].name@ == id@);
                    }
                }
                Some(&self.players[i])
            },
            None => None,
        }
    }

    /// Adds a player and opens it. A player whose identifier is already
    /// present is rejected: the result is `false` and the registry is
    /// unchanged. Otherwise the player is appended, opened, and the window
    /// creation is handed back.
    pub fn add_player(&mut self, player: VideoPlayer) -> (r: (bool, Vec<Action>))
        requires
            old(self).wf(),
            player.wf(),
        ensures
            final(self).wf(),
            r.0 == !contains_name(old(self)@, player.name@),
            !r.0 ==> *final(self) == *old(self) && r.1@ == Seq::<Action>::empty(),
            r.0 ==> final(self)@ == old(self)@.push(opened_state(player)) && r.1@ == open_actions(
                player,
            ),
    {
        match self.index_of(player.name.as_str()) {
            Some(i) => {
                proof {
                    assert(contains_name(self@, player.name@)) by {
                        assert(self@[i as int].name@ == player.name@);
                    }
                }
                (false, Vec::new())
            },
            None => {
                let mut p = player;
                let acts = p.open();
                self.players.push(p);
                proof {
                    assert(self@ =~= old(self)@.push(opened_state(player)));
                    assert(final(self).wf()) by {
                        assert(forall|k: int|
                            0 <= k < old(self)@.len() ==> old(self)@[k].name@ != player.name@);
                        assert(opened_state(player).name@ == player.name@);
                        assert(opened_state(player).wf());
                    }
                }
                (true, acts)
            },
        }
    }

    /// Removes the player named `id`, where one exists; removing an absent
    /// identifier changes nothing.
    pub fn remove_player(&mut self, id: &str)
        requires
            old(self).wf(),
        ensures
            final(self).wf(),
            !contains_name(old(self)@, id@) ==> *final(self) == *old(self),
            contains_name(old(self)@, id@) ==> exists|i: int|
                0 <= i < old(self)@.len() && old(self)@[i].name@ == id@ && final(self)@ == old(
                    self,
                )@.remove(i),
    {
        match self.index_of(id) {
            None => {
            },
            Some(i) => {
                self.players.remove(i);
                proof {
                    assert(contains_name(old(self)@, id@)) by {
                        assert(old(self)@[i as int].name@ == id@);
                    }
                    assert(0 <= i < old(self)@.len() && old(self)@[i as int].name@ == id@
                        && final(self)@ == old(self)@.remove(i as int));
                }
            },
        }
    }

    /// Notifies every active player on its outward channel with a
    /// `"close"` message, then tears each down: pipelines and overlays are
    /// released and windows closed. The entries themselves stay registered,
    /// each in its terminal state.
    pub fn close_all(&mut self) -> (r: (Vec<Action>, Vec<OutwardEvent>))
        requires
            old(self).wf(),
        ensures
            final(self).wf(),
            final(self)@.len() == old(self)@.len(),
            forall|i: int|
                0 <= i < old(self)@.len() ==> final(self)@[i] == closed_state(old(self)@[i]),
            r.0@ == close_all_actions(old(self)@),
            r.1@.len() == old(self)@.len(),
            forall|i: int|
                0 <= i < old(self)@.len() ==> r.1@[i].channel@ == old(self)@[i].name@
                    && r.1@[i].event@ == "close"@,
    {
        let ghost orig: Seq<VideoPlayer> = self@;
        let mut acts: Vec<Action> = Vec::new();
        let mut out: Vec<OutwardEvent> = Vec::new();
        let mut done: Vec<VideoPlayer> = Vec::new();
        while self.players.len() > 0
            invariant
                done@.len() + self.players@.len() == orig.len(),
                self.players@ == orig.subrange(done@.len() as int, orig.len() as int),
                forall|i: int| 0 <= i < done@.len() ==> done@[i] == closed_state(orig[i]),
                acts@ == close_all_actions(orig.subrange(0, done@.len() as int)),
                out@.len() == done@.len(),
                forall|i: int|
                    0 <= i < done@.len() ==> out@[i].channel@ == orig[i].name@ && out@[i].event@
                        == "close"@,
            decreases self.players@.len(),
        {
            let ghost d = done@.len() as int;
            proof {
                assert(self.players@[0] == orig[d]);
            }
            let mut p = self.players.remove(0);
            out.push(p.send_event(String::from_str("close")));
            let mut a = p.close();
            acts.append(&mut a);
            done.push(p);
            proof {
                assert(self.players@ =~= orig.subrange(d + 1, orig.len() as int));
                assert(orig.subrange(0, d + 1).drop_last() =~= orig.subrange(0, d));
                assert(orig.subrange(0, d + 1).last() == orig[d]);
                assert(acts@ == close_all_actions(orig.subrange(0, d + 1)));
            }
        }
        self.players = done;
        proof {
            assert(orig.subrange(0, orig.len() as int) =~= orig);
            assert(final(self).wf()) by {
                assert(forall|i: int|
                    0 <= i < orig.len() ==> #[trigger] self@[i].name@ == orig[i].name@);
            }
        }
        (acts, out)
    }

    /// Handles the inbound open command: for a non-empty `url`, constructs
    /// the player of `url` and registers and opens it; an empty `url`, or
    /// an identifier collision, changes nothing.
    pub fn open_video_player(&mut self, url: String) -> (r: (bool, Vec<Action>))
        requires
            old(self).wf(),
        ensures
            final(self).wf(),
            url@.len() == 0 ==> *final(self) == *old(self) && !r.0 && r.1@ == Seq::<
                Action,
            >::empty(),
            url@.len() > 0 ==> r.0 == !contains_name(old(self)@, id_of(url@)),
            url@.len() > 0 && !r.0 ==> *final(self) == *old(self) && r.1@ == Seq::<
                Action,
            >::empty(),
            url@.len() > 0 && r.0 ==> final(self)@.len() == old(self)@.len() + 1 && (forall|i: int|
                0 <= i < old(self)@.len() ==> final(self)@[i] == old(self)@[i]) && is_fresh_open(
                final(self)@.last(),
                url@,
            ) && r.1@ == seq![(Action::CreateWindow { width: 404, height: 324 })],
    {
        if url.as_str().is_empty() {
            return (false, Vec::new());
        }
        let player = VideoPlayer::new(url);
        self.add_player(player)
    }

    /// Routes one named event to the player identified by `window`: looks
    /// the player up, dispatches the event, and — where the transition
    /// reports non-liveness — evicts the player in a second step. An
    /// unknown identifier is a no-op: no transition, no side effects, no
    /// registry change.
    pub fn player_event(&mut self, window: String, event_name: String, data: &EventPayload) -> (r:
        DispatchOutcome)
        requires
            old(self).wf(),
        ensures
            final(self).wf(),
            r.handled == contains_name(old(self)@, window@),
            !r.handled ==> *final(self) == *old(self) && r.actions@ == Seq::<Action>::empty()
                && r.outward@ == Seq::<OutwardEvent>::empty(),
            r.handled ==> exists|i: int|
                {
                    &&& 0 <= i < old(self)@.len()
                    &&& old(self)@[i].name@ == window@
                    &&& r.actions@ == event_actions(old(self)@[i], event_name@, *data)
                    &&& r.outward@.len() == (if event_emits_closed(
                        old(self)@[i],
                        event_name@,
                        *data,
                    ) {
                        1int
                    } else {
                        0int
                    })
                    &&& (event_emits_closed(old(self)@[i], event_name@, *data)
                        ==> r.outward@[0].channel@ == old(self)@[i].name@ && r.outward@[0].event@
                        == "closed"@)
                    &&& (event_live(event_name@) ==> final(self)@ == old(self)@.update(
                        i,
                        event_state(old(self)@[i], event_name@, *data),
                    ))
                    &&& (!event_live(event_name@) ==> final(self)@ == old(self)@.remove(i))
                },
    {
        match self.index_of(window.as_str()) {
            None => {
                DispatchOutcome { handled: false, actions: Vec::new(), outward: Vec::new() }
            },
            Some(i) => {
                proof {
                    assert(contains_name(self@, window@)) by {
                        assert(self@[i as int].name@ == window@);
                    }
                }
                let mut p = self.players.remove(i);
                let outcome = p.handle_event(event_name, data);
                if outcome.live {
                    self.players.insert(i, p);
                    proof {
                        assert(self@ =~= old(self)@.update(
                            i as int,
                            event_state(old(self)@[i as int], event_name@, *data),
                        ));
                        assert(final(self).wf()) by {
                            assert(forall|k: int|
                                0 <= k < self@.len() && k != i ==> self@[k] == old(self)@[k]);
                            assert(self@[i as int].name@ == old(self)@[i as int].name@);
                        }
                    }
                } else {
                    proof {
                        assert(self@ =~= old(self)@.remove(i as int));
                    }
                }
                DispatchOutcome { handled: true, actions: outcome.actions, outward: outcome.outward }
            },
        }
    }
}

} // verus!
