//! The per-player lifecycle state machine.
//!
//! A [`VideoPlayer`] wraps one window, at most one engine pipeline and at
//! most one overlay binding. Every transition is specified by a spec
//! function over the player's state, and returns the [`Action`] values the
//! embedding shell must perform on the toolkit and the engine.

use vstd::prelude::*;
use vstd::string::StringExecFns;

use crate::events::Action;
use crate::events::BusMessage;
use crate::events::EventPayload;
use crate::events::NativeHandle;
use crate::events::OutwardEvent;
use crate::events::has_terminal;
use crate::ident::id_of;
use crate::ident::player_id;

verus! {

/// Where a player stands in its lifecycle.
#[derive(Clone, Copy, Debug, PartialEq, Eq, Structural)]
pub enum PlayerPhase {
    /// Constructed, no window yet.
    Created,
    /// The window exists; no pipeline yet.
    WindowOpen,
    /// A pipeline is built and its overlay bound, playback not started.
    PipelineReady,
    /// The pipeline is playing.
    Playing,
    /// The pipeline is paused.
    Paused,
    /// The pipeline was torn down; the window remains.
    Stopped,
    /// Terminal: window and pipeline are gone; the registry evicts the player.
    Closed,
}

/// How an attempt to build and bind a pipeline ended.
#[derive(Clone, Copy, Debug, PartialEq, Eq, Structural)]
pub enum BuildOutcome {
    /// Pipeline built, overlay bound, render rectangle set.
    Built,
    /// The engine could not assemble a pipeline or sink for the URL.
    EngineFailure,
    /// The player has no window to bind to.
    NoWindow,
    /// The window's platform kind has no overlay binding; the player is
    /// left without a pipeline.
    UnsupportedPlatform,
}

/// One media-playback surface: a window, an optional engine pipeline, and
/// an optional overlay binding, with its lifecycle phase.
#[derive(Clone, Debug)]
pub struct VideoPlayer {
    /// Registry identifier, derived from `url`; also the outward channel name.
    pub name: String,
    /// The media source locator; immutable after construction.
    pub url: String,
    /// Whether the player owns a window.
    pub window: bool,
    /// Current render-surface width.
    pub width: i32,
    /// Current render-surface height.
    pub height: i32,
    /// Whether an engine pipeline is currently built.
    pub pipeline: bool,
    /// Whether an overlay binding is in place; present exactly when
    /// `pipeline` is.
    pub video_overlay: bool,
    /// The lifecycle phase.
    pub phase: PlayerPhase,
}

impl VideoPlayer {
    /// The player's structural invariant: pipeline and overlay are both
    /// present or both absent, a pipeline implies a window, and the phase
    /// agrees with what the player owns.
    pub open spec fn wf(&self) -> bool {
        &&& self.pipeline == self.video_overlay
        &&& (self.pipeline ==> self.window)
        &&& ((self.phase is PipelineReady || self.phase is Playing || self.phase is Paused)
            ==> self.pipeline)
        &&& ((self.phase is Created || self.phase is Closed) ==> !self.window && !self.pipeline)
    }
}

/// The actions that set the overlay's render rectangle and force a redraw,
/// when an overlay is bound; nothing otherwise.
pub open spec fn rect_actions(p: VideoPlayer, x: i32, y: i32, width: i32, height: i32) -> Seq<
    Action,
> {
    if p.video_overlay {
        seq![
            (Action::SetRenderRectangle { x, y, width, height }),
            Action::Expose,
        ]
    } else {
        Seq::empty()
    }
}

/// The actions that fill the player's current window with video.
pub open spec fn fill_actions(p: VideoPlayer) -> Seq<Action> {
    rect_actions(p, 0, 0, p.width, p.height)
}

/// The state after `open`: dimensions fixed to the defaults, and a window
/// owned, created now if the player had none.
pub open spec fn opened_state(p: VideoPlayer) -> VideoPlayer {
    if p.window {
        VideoPlayer { width: 404, height: 324, ..p }
    } else {
        VideoPlayer { width: 404, height: 324, window: true, phase: PlayerPhase::WindowOpen, ..p }
    }
}

/// The actions of `open`: window creation, unless one already exists.
pub open spec fn open_actions(p: VideoPlayer) -> Seq<Action> {
    if p.window {
        Seq::empty()
    } else {
        seq![(Action::CreateWindow { width: 404, height: 324 })]
    }
}

/// Whether a pipeline build goes through: the engine assembled one and the
/// window's platform kind supports an overlay binding.
pub open spec fn build_applies(window: Option<NativeHandle>, engine_ok: bool) -> bool {
    engine_ok && match window {
        Some(h) => h.spec_raw() is Some,
        None => false,
    }
}

/// The state after a successful pipeline build: pipeline and overlay
/// present, ready for playback.
pub open spec fn built_state(p: VideoPlayer) -> VideoPlayer {
    VideoPlayer { pipeline: true, video_overlay: true, phase: PlayerPhase::PipelineReady, ..p }
}

/// The actions of a successful pipeline build: bind the native handle to
/// the sink, then set the initial render rectangle.
pub open spec fn build_actions(window: Option<NativeHandle>) -> Seq<Action> {
    match window {
        Some(h) => match h.spec_raw() {
            Some(v) => seq![
                (Action::BindOverlay { handle: v }),
                (Action::SetRenderRectangle { x: 0, y: 20, width: 300, height: 200 }),
            ],
            None => Seq::empty(),
        },
        None => Seq::empty(),
    }
}

/// How a pipeline build ends, for each combination of engine report and
/// window handle.
pub open spec fn build_outcome(window: Option<NativeHandle>, engine_ok: bool) -> BuildOutcome {
    if !engine_ok {
        BuildOutcome::EngineFailure
    } else {
        match window {
            None => BuildOutcome::NoWindow,
            Some(h) => if h.spec_raw() is Some {
                BuildOutcome::Built
            } else {
                BuildOutcome::UnsupportedPlatform
            },
        }
    }
}

/// The state after `play`: playing, when a pipeline exists; unchanged
/// otherwise.
pub open spec fn played_state(p: VideoPlayer) -> VideoPlayer {
    if p.pipeline {
        VideoPlayer { phase: PlayerPhase::Playing, ..p }
    } else {
        p
    }
}

/// The actions of `play`.
pub open spec fn play_actions(p: VideoPlayer) -> Seq<Action> {
    if p.pipeline {
        seq![Action::EnginePlay]
    } else {
        Seq::empty()
    }
}

/// The state after `pause`: paused, when a pipeline exists; unchanged
/// otherwise.
pub open spec fn paused_state(p: VideoPlayer) -> VideoPlayer {
    if p.pipeline {
        VideoPlayer { phase: PlayerPhase::Paused, ..p }
    } else {
        p
    }
}

/// The actions of `pause`.
pub open spec fn pause_actions(p: VideoPlayer) -> Seq<Action> {
    if p.pipeline {
        seq![Action::EnginePause]
    } else {
        Seq::empty()
    }
}

/// The state after `stop`: pipeline and overlay gone, the window kept; the
/// phase becomes `Stopped` when a pipeline was actually torn down.
pub open spec fn stopped_state(p: VideoPlayer) -> VideoPlayer {
    VideoPlayer {
        pipeline: false,
        video_overlay: false,
        phase: if p.pipeline {
            PlayerPhase::Stopped
        } else {
            p.phase
        },
        ..p
    }
}

/// The actions of `stop`.
pub open spec fn stop_actions(p: VideoPlayer) -> Seq<Action> {
    if p.pipeline {
        seq![Action::EngineNull]
    } else {
        Seq::empty()
    }
}

/// The state after `close`: everything released, terminally.
pub open spec fn closed_state(p: VideoPlayer) -> VideoPlayer {
    VideoPlayer {
        pipeline: false,
        video_overlay: false,
        window: false,
        phase: PlayerPhase::Closed,
        ..p
    }
}

/// The actions of `close`: tear down the pipeline, then close the window,
/// each only where present.
pub open spec fn close_actions(p: VideoPlayer) -> Seq<Action> {
    stop_actions(p) + (if p.window {
        seq![Action::CloseWindow]
    } else {
        Seq::empty()
    })
}

/// The state after a `"resized"` event: both dimensions updated when the
/// payload carries both; unchanged otherwise.
pub open spec fn resized_state(p: VideoPlayer, data: EventPayload) -> VideoPlayer {
    match (data.width, data.height) {
        (Some(w), Some(h)) => VideoPlayer { width: w, height: h, ..p },
        _ => p,
    }
}

/// The actions of a `"resized"` event: re-fill the window at the new
/// dimensions when both were given; nothing otherwise.
pub open spec fn resize_actions(p: VideoPlayer, data: EventPayload) -> Seq<Action> {
    match (data.width, data.height) {
        (Some(w), Some(h)) => fill_actions(resized_state(p, data)),
        _ => Seq::empty(),
    }
}

/// The state after a `"poll"` event: stopped when a pipeline exists and the
/// drained messages hold an error or an end-of-stream; unchanged otherwise.
pub open spec fn poll_state(p: VideoPlayer, ms: Seq<BusMessage>) -> VideoPlayer {
    if p.pipeline && has_terminal(ms) {
        stopped_state(p)
    } else {
        p
    }
}

/// The actions of a `"poll"` event.
pub open spec fn poll_actions(p: VideoPlayer, ms: Seq<BusMessage>) -> Seq<Action> {
    if p.pipeline && has_terminal(ms) {
        stop_actions(p)
    } else {
        Seq::empty()
    }
}

/// Whether a `"poll"` event emits the outward `"closed"` notification.
pub open spec fn poll_emits_closed(p: VideoPlayer, ms: Seq<BusMessage>) -> bool {
    p.pipeline && has_terminal(ms)
}

/// A poll that hit an error or an end-of-stream leaves the player without
/// a pipeline or overlay, so a subsequent poll changes nothing, performs
/// nothing and notifies nobody, whatever messages it drains.
pub proof fn lemma_poll_after_terminal(p: VideoPlayer, ms1: Seq<BusMessage>, ms2: Seq<BusMessage>)
    requires
        poll_emits_closed(p, ms1),
    ensures
        !poll_state(p, ms1).pipeline,
        !poll_state(p, ms1).video_overlay,
        poll_state(poll_state(p, ms1), ms2) == poll_state(p, ms1),
        poll_actions(poll_state(p, ms1), ms2) == Seq::<Action>::empty(),
        !poll_emits_closed(poll_state(p, ms1), ms2),
{
}

/// The state after a `"ready"` event: with a window, the pipeline is built
/// if engine and platform allow, and playback starts on whatever pipeline
/// the player then holds; without a window, nothing happens.
pub open spec fn ready_state(p: VideoPlayer, data: EventPayload) -> VideoPlayer {
    if !p.window {
        p
    } else {
        let q = if build_applies(data.handle, data.engine_ok) {
            built_state(p)
        } else {
            p
        };
        played_state(q)
    }
}

/// The actions of a `"ready"` event: bind and position the overlay where
/// the build goes through, then fill the window and start playback on
/// whatever pipeline the player then holds.
pub open spec fn ready_actions(p: VideoPlayer, data: EventPayload) -> Seq<Action> {
    if !p.window {
        Seq::empty()
    } else {
        let q = if build_applies(data.handle, data.engine_ok) {
            built_state(p)
        } else {
            p
        };
        (if build_applies(data.handle, data.engine_ok) {
            build_actions(data.handle)
        } else {
            Seq::empty()
        }) + fill_actions(q) + play_actions(q)
    }
}

/// The event names the player recognizes.
pub open spec fn known_event(en: Seq<char>) -> bool {
    ||| en == "ready"@
    ||| en == "poll"@
    ||| en == "play"@
    ||| en == "pause"@
    ||| en == "stop"@
    ||| en == "resized"@
    ||| en == "closed"@
}

/// The player's transition function: the state after dispatching the named
/// event with its payload. Unrecognized names change nothing.
pub open spec fn event_state(p: VideoPlayer, en: Seq<char>, data: EventPayload) -> VideoPlayer {
    if en == "ready"@ {
        ready_state(p, data)
    } else if en == "poll"@ {
        poll_state(p, data.messages@)
    } else if en == "play"@ {
        played_state(p)
    } else if en == "pause"@ {
        paused_state(p)
    } else if en == "stop"@ {
        stopped_state(p)
    } else if en == "resized"@ {
        resized_state(p, data)
    } else if en == "closed"@ {
        closed_state(p)
    } else {
        p
    }
}

/// The actions a dispatch asks the shell to perform, for each event name.
pub open spec fn event_actions(p: VideoPlayer, en: Seq<char>, data: EventPayload) -> Seq<Action> {
    if en == "ready"@ {
        ready_actions(p, data)
    } else if en == "poll"@ {
        poll_actions(p, data.messages@)
    } else if en == "play"@ {
        play_actions(p)
    } else if en == "pause"@ {
        pause_actions(p)
    } else if en == "stop"@ {
        stop_actions(p)
    } else if en == "resized"@ {
        resize_actions(p, data)
    } else if en == "closed"@ {
        close_actions(p)
    } else {
        Seq::empty()
    }
}

/// The liveness flag a dispatch reports: `false` exactly for `"closed"`,
/// which tells the registry to evict the player.
pub open spec fn event_live(en: Seq<char>) -> bool {
    en != "closed"@
}

/// Whether a dispatch pushes the outward `"closed"` notification: only a
/// `"poll"` that hit an error or an end-of-stream does.
pub open spec fn event_emits_closed(p: VideoPlayer, en: Seq<char>, data: EventPayload) -> bool {
    en == "poll"@ && poll_emits_closed(p, data.messages@)
}

/// What a dispatch hands back: the liveness flag, the build report of a
/// `"ready"` event, and the side effects to perform.
pub struct EventOutcome {
    /// `false` exactly when the event was `"closed"`: the player is to be
    /// evicted.
    pub live: bool,
    /// How the pipeline build ended, when the event was `"ready"` on a
    /// player with a window.
    pub build: Option<BuildOutcome>,
    /// Toolkit and engine side effects, in order.
    pub actions: Vec<Action>,
    /// Messages for the front end, in order.
    pub outward: Vec<OutwardEvent>,
}

impl VideoPlayer {
    /// Constructs the player of `url`: identifier derived from the URL,
    /// default dimensions, nothing owned yet.
    pub fn new(url: String) -> (r: VideoPlayer)
        ensures
            r.name@ == id_of(url@),
            r.url@ == url@,
            !r.window,
            r.width == 800,
            r.height == 600,
            !r.pipeline,
            !r.video_overlay,
            r.phase is Created,
            r.wf(),
    {
        let name = player_id(url.as_str());
        VideoPlayer {
            name,
            url,
            window: false,
            width: 800,
            height: 600,
            pipeline: false,
            video_overlay: false,
            phase: PlayerPhase::Created,
        }
    }

    /// Fixes the dimensions to the opening defaults and creates the window
    /// if the player has none; opening twice creates no second window.
    pub fn open(&mut self) -> (r: Vec<Action>)
        ensures
            *final(self) == opened_state(*old(self)),
            r@ == open_actions(*old(self)),
            old(self).wf() ==> final(self).wf(),
    {
        self.width = 404;
        self.height = 324;
        let mut acts: Vec<Action> = Vec::new();
        if !self.window {
            self.window = true;
            self.phase = PlayerPhase::WindowOpen;
            acts.push(Action::CreateWindow { width: 404, height: 324 });
        }
        proof {
            assert(acts@ =~= open_actions(*old(self)));
        }
        acts
    }

    /// Starts playback on the pipeline, where one exists.
    pub fn play(&mut self) -> (r: Vec<Action>)
        ensures
            *final(self) == played_state(*old(self)),
            r@ == play_actions(*old(self)),
            old(self).wf() ==> final(self).wf(),
    {
        let mut acts: Vec<Action> = Vec::new();
        if self.pipeline {
            self.phase = PlayerPhase::Playing;
            acts.push(Action::EnginePlay);
        }
        proof {
            assert(acts@ =~= play_actions(*old(self)));
        }
        acts
    }

    /// Pauses playback on the pipeline, where one exists.
    pub fn pause(&mut self) -> (r: Vec<Action>)
        ensures
            *final(self) == paused_state(*old(self)),
            r@ == pause_actions(*old(self)),
            old(self).wf() ==> final(self).wf(),
    {
        let mut acts: Vec<Action> = Vec::new();
        if self.pipeline {
            self.phase = PlayerPhase::Paused;
            acts.push(Action::EnginePause);
        }
        proof {
            assert(acts@ =~= pause_actions(*old(self)));
        }
        acts
    }

    /// Tears the pipeline and its overlay binding down, keeping the window.
    pub fn stop(&mut self) -> (r: Vec<Action>)
        ensures
            *final(self) == stopped_state(*old(self)),
            r@ == stop_actions(*old(self)),
            old(self).wf() ==> final(self).wf(),
    {
        let mut acts: Vec<Action> = Vec::new();
        if self.pipeline {
            self.phase = PlayerPhase::Stopped;
            acts.push(Action::EngineNull);
        }
        self.pipeline = false;
        self.video_overlay = false;
        proof {
            assert(acts@ =~= stop_actions(*old(self)));
        }
        acts
    }

    /// Moves the overlay's render rectangle and forces a redraw, where an
    /// overlay is bound.
    pub fn change_video_size(&self, x: i32, y: i32, width: i32, height: i32) -> (r: Vec<Action>)
        ensures
            r@ == rect_actions(*self, x, y, width, height),
    {
        let mut acts: Vec<Action> = Vec::new();
        if self.video_overlay {
            acts.push(Action::SetRenderRectangle { x, y, width, height });
            acts.push(Action::Expose);
        }
        proof {
            assert(acts@ =~= rect_actions(*self, x, y, width, height));
        }
        acts
    }

    /// Fills the whole current window with video.
    pub fn fill_current_window(&self) -> (r: Vec<Action>)
        ensures
            r@ == fill_actions(*self),
    {
        self.change_video_size(0, 0, self.width, self.height)
    }

    /// Builds the engine pipeline for the player's URL and binds its sink
    /// to the window's native handle. `window` is the handle of the
    /// player's own window, where it has one; `engine_ok` is the engine's
    /// report on assembling a pipeline and sink for the URL. Failure of
    /// either, or a platform kind without overlay binding, leaves the
    /// player without a pipeline and is reported in the outcome.
    pub fn build_pipeline_for_url(&mut self, window: &Option<NativeHandle>, engine_ok: bool) -> (r:
        (BuildOutcome, Vec<Action>))
        requires
            (*window is Some) ==> old(self).window,
        ensures
            *final(self) == (if build_applies(*window, engine_ok) {
                built_state(*old(self))
            } else {
                *old(self)
            }),
            r.1@ == (if build_applies(*window, engine_ok) {
                build_actions(*window)
            } else {
                Seq::<Action>::empty()
            }),
            r.0 == build_outcome(*window, engine_ok),
            old(self).wf() ==> final(self).wf(),
    {
        let mut acts: Vec<Action> = Vec::new();
        if !engine_ok {
            return (BuildOutcome::EngineFailure, acts);
        }
        match window {
            None => (BuildOutcome::NoWindow, acts),
            Some(h) => {
                match h.raw_value() {
                    None => (BuildOutcome::UnsupportedPlatform, acts),
                    Some(v) => {
                        acts.push(Action::BindOverlay { handle: v });
                        acts.push(
                            Action::SetRenderRectangle { x: 0, y: 20, width: 300, height: 200 },
                        );
                        self.pipeline = true;
                        self.video_overlay = true;
                        self.phase = PlayerPhase::PipelineReady;
                        proof {
                            assert(acts@ =~= build_actions(*window));
                        }
                        (BuildOutcome::Built, acts)
                    },
                }
            },
        }
    }

    /// Scans the status messages drained from the pipeline in one pass.
    /// The first error or end-of-stream stops the pipeline and halts the
    /// scan; the result is `false` exactly then. Without a pipeline there
    /// is nothing to query and the call changes nothing.
    pub fn poll(&mut self, messages: &Vec<BusMessage>) -> (r: (bool, Vec<Action>))
        ensures
            *final(self) == poll_state(*old(self), messages@),
            r.1@ == poll_actions(*old(self), messages@),
            r.0 == !poll_emits_closed(*old(self), messages@),
            old(self).wf() ==> final(self).wf(),
    {
        if !self.pipeline {
            return (true, Vec::new());
        }
        let mut i: usize = 0;
        while i < messages.len()
            invariant
                i <= messages@.len(),
                forall|j: int| 0 <= j < i ==> !crate::events::is_terminal(messages@[j]),
                *self == *old(self),
                old(self).pipeline,
            decreases messages@.len() - i,
        {
            let m = messages[i];
            match m {
                BusMessage::Error => {
                    let acts = self.stop();
                    proof {
                        assert(crate::events::is_terminal(messages@[i as int]));
                    }
                    return (false, acts);
                },
                BusMessage::Eos => {
                    let acts = self.stop();
                    proof {
                        assert(crate::events::is_terminal(messages@[i as int]));
                    }
                    return (false, acts);
                },
                BusMessage::Other => {},
            }
            i = i + 1;
        }
        proof {
            assert(!has_terminal(messages@));
        }
        (true, Vec::new())
    }

    /// Stops the pipeline, closes the window, and makes the player
    /// terminal; the caller must evict it from the registry.
    pub fn close(&mut self) -> (r: Vec<Action>)
        ensures
            *final(self) == closed_state(*old(self)),
            r@ == close_actions(*old(self)),
            final(self).wf(),
    {
        let mut acts = self.stop();
        if self.window {
            acts.push(Action::CloseWindow);
        }
        self.window = false;
        self.phase = PlayerPhase::Closed;
        proof {
            assert(acts@ =~= close_actions(*old(self)));
        }
        acts
    }

    /// Wraps a message for the player's outward channel, which is named
    /// after the player; the front end consumes it. The data field of the
    /// outward message is null throughout this protocol.
    pub fn send_event(&self, event_name: String) -> (r: OutwardEvent)
        ensures
            r.channel@ == self.name@,
            r.event@ == event_name@,
    {
        OutwardEvent { channel: self.name.clone(), event: event_name }
    }

    /// Dispatches one named event to the player: the state moves to
    /// `event_state`, the shell is asked to perform `event_actions`, the
    /// front end is notified where a poll hit an error or an end-of-stream,
    /// and the liveness flag is `false` exactly for `"closed"`.
    pub fn handle_event(&mut self, event_name: String, data: &EventPayload) -> (r: EventOutcome)
        ensures
            *final(self) == event_state(*old(self), event_name@, *data),
            r.actions@ == event_actions(*old(self), event_name@, *data),
            r.live == event_live(event_name@),
            r.outward@.len() == (if event_emits_closed(*old(self), event_name@, *data) {
                1int
            } else {
                0int
            }),
            event_emits_closed(*old(self), event_name@, *data) ==> r.outward@[0].channel@ == old(
                self,
            ).name@ && r.outward@[0].event@ == "closed"@,
            r.build == (if event_name@ == "ready"@ && old(self).window {
                Some(build_outcome(data.handle, data.engine_ok))
            } else {
                None::<BuildOutcome>
            }),
            old(self).wf() ==> final(self).wf(),
    {
        proof {
            reveal_strlit("ready");
            reveal_strlit("poll");
            reveal_strlit("play");
            reveal_strlit("pause");
            reveal_strlit("stop");
            reveal_strlit("resized");
            reveal_strlit("closed");
            // The event names are pairwise distinct: where the lengths
            // agree, a character differs.
            assert("ready"@.len() == 5 && "poll"@.len() == 4 && "play"@.len() == 4
                && "pause"@.len() == 5 && "stop"@.len() == 4 && "resized"@.len() == 7
                && "closed"@.len() == 6);
            assert("play"@[2] == 'a' && "poll"@[2] == 'l' && "stop"@[0] == 's' && "poll"@[0] == 'p'
                && "pause"@[0] == 'p' && "ready"@[0] == 'r');
        }
        let mut actions: Vec<Action> = Vec::new();
        let mut outward: Vec<OutwardEvent> = Vec::new();
        let mut live: bool = true;
        let mut build: Option<BuildOutcome> = None;
        if event_name == String::from_str("ready") {
            if self.window {
                let built = self.build_pipeline_for_url(&data.handle, data.engine_ok);
                build = Some(built.0);
                let mut a = built.1;
                actions.append(&mut a);
                let mut f = self.fill_current_window();
                actions.append(&mut f);
                let mut p = self.play();
                actions.append(&mut p);
                proof {
                    assert(actions@ =~= ready_actions(*old(self), *data));
                }
            }
        } else if event_name == String::from_str("poll") {
            let polled = self.poll(&data.messages);
            let mut a = polled.1;
            actions.append(&mut a);
            if !polled.0 {
                outward.push(self.send_event(String::from_str("closed")));
            }
            proof {
                assert(actions@ =~= poll_actions(*old(self), data.messages@));
            }
        } else if event_name == String::from_str("play") {
            let mut a = self.play();
            actions.append(&mut a);
            proof {
                assert(actions@ =~= play_actions(*old(self)));
            }
        } else if event_name == String::from_str("pause") {
            let mut a = self.pause();
            actions.append(&mut a);
            proof {
                assert(actions@ =~= pause_actions(*old(self)));
            }
        } else if event_name == String::from_str("stop") {
            let mut a = self.stop();
            actions.append(&mut a);
            proof {
                assert(actions@ =~= stop_actions(*old(self)));
            }
        } else if event_name == String::from_str("resized") {
            match (data.width, data.height) {
                (Some(w), Some(h)) => {
                    self.width = w;
                    self.height = h;
                    let mut f = self.fill_current_window();
                    actions.append(&mut f);
                },
                _ => {},
            }
            proof {
                assert(actions@ =~= resize_actions(*old(self), *data));
            }
        } else if event_name == String::from_str("closed") {
            let mut a = self.close();
            actions.append(&mut a);
            live = false;
            proof {
                assert(actions@ =~= close_actions(*old(self)));
            }
        }
        EventOutcome { live, build, actions, outward }
    }
}

} // verus!
