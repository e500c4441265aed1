//! The application router.
//!
//! `Tukai` owns the session, the clock, the store and the screen
//! selection, and decides what every inbound event does. Keyboard events
//! reach it as plain values; reserved control combinations are
//! intercepted first, then the active screen is offered the key, and
//! only an unconsumed key falls back to the global exit and navigation
//! keys. Whenever a decision requires the store to be persisted, the
//! encoded blob is handed back to the caller, who writes it out.

use vstd::prelude::*;

use crate::clock::Clock;
use crate::clock::remaining_spec;
use crate::codec::dec_store;
use crate::codec::enc_store;
use crate::session::SessionState;
use crate::session::SessionView;
use crate::session::TypingWindow;
use crate::session::TypingWindowConfig;
use crate::session::classify_all_spec;
use crate::session::pop_spec;
use crate::session::push_spec;
use crate::session::stat_of;
use crate::session::tick_spec;
use crate::stats::Activity;
use crate::stats::Stat;
use crate::stats::TypingDuration;
use crate::store::StorageHandler;

verus! {

/// How many visual layouts can be cycled through.
pub const LAYOUT_COUNT: u32 = 3;

/// How many languages can be cycled through.
pub const LANGUAGE_COUNT: u32 = 2;

/// Plain-value model of a pressed key, as the router reads it.
#[derive(Clone, Copy, PartialEq, Eq, Structural, Debug)]
pub enum KeyCode {
    Char(char),
    Backspace,
    Esc,
    Left,
    Right,
    Enter,
    Other,
}

/// One keyboard event: the key and whether control was held.
#[derive(Clone, Copy, PartialEq, Eq, Structural, Debug)]
pub struct KeyEvent {
    pub code: KeyCode,
    pub ctrl: bool,
}

/// The two mutually exclusive screens.
#[derive(Clone, Copy, PartialEq, Eq, Structural, Debug)]
pub enum ActiveScreenEnum {
    Typing,
    Stats,
}

/// The application's configuration, held by one owner; every update
/// goes through the router's dispatch.
#[derive(Clone, Copy, PartialEq, Eq, Structural, Debug)]
pub struct TukaiConfig {
    pub typing_duration: TypingDuration,
    pub has_transparent_bg: bool,
    pub layout_index: u32,
    pub language_index: u32,
}

impl Default for TukaiConfig {
    fn default() -> (r: TukaiConfig)
        ensures
            r.typing_duration == TypingDuration::Minute,
            r.has_transparent_bg == false,
            r.layout_index == 0,
            r.language_index == 0,
    {
        TukaiConfig {
            typing_duration: TypingDuration::Minute,
            has_transparent_bg: false,
            layout_index: 0,
            language_index: 0,
        }
    }
}

impl TukaiConfig {
    /// Cycles to the next target duration and hands it back.
    pub fn switch_typing_duration(&mut self) -> (r: TypingDuration)
        ensures
            r == old(self).typing_duration.next_spec(),
            *final(self) == (TukaiConfig { typing_duration: r, ..*old(self) }),
    {
        self.typing_duration = self.typing_duration.next();
        self.typing_duration
    }

    /// Toggles the transparent background and hands the new state back.
    pub fn toggle_transparent_bg(&mut self) -> (r: bool)
        ensures
            r == !old(self).has_transparent_bg,
            *final(self) == (TukaiConfig { has_transparent_bg: r, ..*old(self) }),
    {
        self.has_transparent_bg = !self.has_transparent_bg;
        self.has_transparent_bg
    }

    /// Cycles to the next visual layout and hands its index back.
    pub fn switch_layout(&mut self) -> (r: u32)
        ensures
            r == (old(self).layout_index % LAYOUT_COUNT + 1) % (LAYOUT_COUNT as int),
            *final(self) == (TukaiConfig { layout_index: r, ..*old(self) }),
    {
        self.layout_index = (self.layout_index % LAYOUT_COUNT + 1) % LAYOUT_COUNT;
        self.layout_index
    }

    /// Cycles to the next language and hands its index back.
    pub fn switch_language(&mut self) -> (r: u32)
        ensures
            r == (old(self).language_index % LANGUAGE_COUNT + 1) % (LANGUAGE_COUNT as int),
            *final(self) == (TukaiConfig { language_index: r, ..*old(self) }),
    {
        self.language_index = (self.language_index % LANGUAGE_COUNT + 1) % LANGUAGE_COUNT;
        self.language_index
    }
}

/// The application: screens, session, clock, store, and the exit flag.
#[derive(Debug)]
pub struct Tukai {
    pub config: TukaiConfig,
    storage_handler: StorageHandler,
    is_exit: bool,
    clock: Clock,
    active_screen: ActiveScreenEnum,
    typing_screen: TypingWindow,
    stats_screen_active: bool,
}

impl Tukai {
    /// The session the typing screen holds.
    pub closed spec fn session(self) -> SessionView {
        self.typing_screen@
    }

    /// The stats log of the store, oldest first.
    pub closed spec fn stats_log(self) -> Seq<Stat> {
        self.storage_handler.stats_seq()
    }

    /// The activities collection of the store.
    pub closed spec fn activities_log(self) -> Seq<Activity> {
        self.storage_handler.activities_seq()
    }

    /// Seconds counted since the session started running.
    pub closed spec fn elapsed_secs(self) -> u32 {
        self.clock.time_secs
    }

    pub closed spec fn exiting(self) -> bool {
        self.is_exit
    }

    pub closed spec fn screen(self) -> ActiveScreenEnum {
        self.active_screen
    }

    pub closed spec fn stats_screen_is_active(self) -> bool {
        self.stats_screen_active
    }

    /// The configuration, as contracts speak of it.
    pub closed spec fn configuration(self) -> TukaiConfig {
        self.config
    }

    pub open spec fn wf(self) -> bool {
        self.session().wf()
    }

    /// Everything but the session, the clock and the exit flag is kept.
    pub open spec fn same_store(pre: Tukai, post: Tukai) -> bool {
        &&& post.stats_log() == pre.stats_log()
        &&& post.activities_log() == pre.activities_log()
    }

    /// Creates the application: initializes the store from the backing
    /// file's contents (seeding an empty store when they are absent or
    /// undecodable), and starts an idle session over the given text.
    /// The second result says whether the store was seeded, in which
    /// case the caller should persist it immediately.
    pub fn try_new(config: TukaiConfig, generated_text: Vec<char>, file_bytes: Option<&Vec<u8>>)
        -> (r: (Tukai, bool))
        requires
            generated_text@.len() <= u32::MAX,
        ensures
            r.0.wf(),
            match file_bytes {
                Some(b) => match dec_store(b@) {
                    Some(d) => r.0.stats_log() == d.0 && r.0.activities_log() == d.1 && r.1
                        == false,
                    None => r.0.stats_log().len() == 0 && r.0.activities_log().len() == 0 && r.1
                        == true,
                },
                None => r.0.stats_log().len() == 0 && r.0.activities_log().len() == 0 && r.1
                    == true,
            },
            r.0.session().text == generated_text@,
            r.0.session().input.len() == 0,
            r.0.session().state == SessionState::Idle,
            r.0.session().finalized == false,
            r.0.session().duration == config.typing_duration,
            r.0.elapsed_secs() == 0,
            r.0.exiting() == false,
            r.0.screen() == ActiveScreenEnum::Typing,
            r.0.configuration() == config,
    {
        let (storage_handler, seeded) = StorageHandler::new().init(file_bytes);
        let typing_screen = TypingWindow::new(
            generated_text,
            TypingWindowConfig { typing_duration: config.typing_duration },
        );
        let app = Tukai {
            config,
            storage_handler,
            is_exit: false,
            clock: Clock::new(),
            active_screen: ActiveScreenEnum::Typing,
            typing_screen,
            stats_screen_active: false,
        };
        (app, seeded)
    }

    /// Counts one received tick; dropped unless the session is running.
    pub fn handle_tick(&mut self)
        requires
            old(self).wf(),
        ensures
            final(self).wf(),
            final(self).session() == old(self).session(),
            Tukai::same_store(*old(self), *final(self)),
            final(self).screen() == old(self).screen(),
            final(self).exiting() == old(self).exiting(),
            final(self).configuration() == old(self).configuration(),
            old(self).session().state == SessionState::Running && old(self).elapsed_secs()
                < u32::MAX ==> final(self).elapsed_secs() == old(self).elapsed_secs() + 1,
            old(self).session().state == SessionState::Running && old(self).elapsed_secs()
                == u32::MAX ==> final(self).elapsed_secs() == u32::MAX,
            old(self).session().state != SessionState::Running ==> final(self).elapsed_secs()
                == old(self).elapsed_secs(),
    {
        let running = self.typing_screen.is_running();
        self.clock.tick(running);
    }

    /// What a reset leaves behind: a fresh idle session over the new
    /// text with the duration kept, a cleared clock, everything else
    /// untouched.
    pub open spec fn reset_outcome(pre: Tukai, post: Tukai, text: Seq<char>) -> bool {
        &&& post.session().text == text
        &&& post.session().input.len() == 0
        &&& post.session().errors == 0
        &&& post.session().state == SessionState::Idle
        &&& post.session().finalized == false
        &&& post.session().duration == pre.session().duration
        &&& post.elapsed_secs() == 0
        &&& Tukai::same_store(pre, post)
        &&& post.screen() == pre.screen()
        &&& post.exiting() == pre.exiting()
        &&& post.configuration() == pre.configuration()
    }

    /// Starts the session over on a freshly generated text and clears
    /// the clock.
    pub fn reset(&mut self, generated_text: Vec<char>)
        requires
            old(self).wf(),
            generated_text@.len() <= u32::MAX,
        ensures
            final(self).wf(),
            Tukai::reset_outcome(*old(self), *final(self), generated_text@),
    {
        self.clock.reset();
        self.typing_screen.reset(generated_text);
    }

    /// Requests the exit: sets the exit flag and hands out the blob
    /// that persists the store, for the final flush before the process
    /// ends.
    pub fn exit(&mut self) -> (r: Vec<u8>)
        requires
            old(self).wf(),
        ensures
            final(self).wf(),
            final(self).exiting() == true,
            r@ == enc_store(old(self).stats_log(), old(self).activities_log()),
            final(self).session() == old(self).session(),
            Tukai::same_store(*old(self), *final(self)),
            final(self).screen() == old(self).screen(),
            final(self).elapsed_secs() == old(self).elapsed_secs(),
            final(self).configuration() == old(self).configuration(),
    {
        self.is_exit = true;
        self.storage_handler.flush()
    }

    pub fn is_exit(&self) -> (r: bool)
        ensures
            r == self.exiting(),
    {
        self.is_exit
    }

    /// Switches the active screen, hiding the one that is left: its
    /// popup and focus state are cleared.
    pub fn switch_active_screen(&mut self, switch_to_screen: ActiveScreenEnum)
        requires
            old(self).wf(),
        ensures
            final(self).wf(),
            final(self).screen() == switch_to_screen,
            switch_to_screen == ActiveScreenEnum::Stats ==> final(self).session() == (SessionView {
                active: false,
                popup_visible: false,
                ..old(self).session()
            }),
            switch_to_screen == ActiveScreenEnum::Typing ==> final(self).session() == old(
                self,
            ).session() && final(self).stats_screen_is_active() == false,
            switch_to_screen == ActiveScreenEnum::Stats ==> final(self).stats_screen_is_active()
                == old(self).stats_screen_is_active(),
            Tukai::same_store(*old(self), *final(self)),
            final(self).exiting() == old(self).exiting(),
            final(self).elapsed_secs() == old(self).elapsed_secs(),
            final(self).configuration() == old(self).configuration(),
    {
        match switch_to_screen {
            ActiveScreenEnum::Stats => self.typing_screen.hide_screen(),
            ActiveScreenEnum::Typing => {
                self.stats_screen_active = false;
            },
        }
        self.active_screen = switch_to_screen;
    }

    /// Offers the key to the active screen. Only the typing screen
    /// consumes keys: characters and backspace; everything else — and
    /// every key while the stats screen is active — is left to the
    /// global fallbacks.
    pub fn handle_screen_events(&mut self, key: KeyEvent) -> (r: bool)
        requires
            old(self).wf(),
        ensures
            final(self).wf(),
            Tukai::same_store(*old(self), *final(self)),
            final(self).screen() == old(self).screen(),
            final(self).exiting() == old(self).exiting(),
            final(self).elapsed_secs() == old(self).elapsed_secs(),
            final(self).configuration() == old(self).configuration(),
            old(self).screen() == ActiveScreenEnum::Typing ==> (key.code matches KeyCode::Char(c)
                ==> r == true && final(self).session() == push_spec(old(self).session(), c)),
            old(self).screen() == ActiveScreenEnum::Typing && key.code == KeyCode::Backspace ==> r
                == true && final(self).session() == pop_spec(old(self).session()),
            old(self).screen() == ActiveScreenEnum::Stats ==> r == false && final(self).session()
                == old(self).session(),
            !(key.code matches KeyCode::Char(_)) && key.code != KeyCode::Backspace ==> r == false
                && final(self).session() == old(self).session(),
    {
        match self.active_screen {
            ActiveScreenEnum::Typing => {
                match key.code {
                    KeyCode::Char(c) => {
                        self.typing_screen.push_char(c);
                        true
                    },
                    KeyCode::Backspace => {
                        self.typing_screen.pop_char();
                        true
                    },
                    _ => false,
                }
            },
            ActiveScreenEnum::Stats => false,
        }
    }

    /// Nothing observable changed.
    pub open spec fn unchanged_outcome(pre: Tukai, post: Tukai) -> bool {
        &&& post.session() == pre.session()
        &&& Tukai::same_store(pre, post)
        &&& post.screen() == pre.screen()
        &&& post.exiting() == pre.exiting()
        &&& post.elapsed_secs() == pre.elapsed_secs()
        &&& post.configuration() == pre.configuration()
    }

    /// What an exit request leaves behind: the exit flag set and the
    /// whole store encoded for the final flush.
    pub open spec fn exit_outcome(pre: Tukai, post: Tukai, r: Option<Vec<u8>>) -> bool {
        &&& post.exiting() == true
        &&& (r matches Some(b) && b@ == enc_store(pre.stats_log(), pre.activities_log()))
        &&& post.session() == pre.session()
        &&& Tukai::same_store(pre, post)
        &&& post.screen() == pre.screen()
        &&& post.elapsed_secs() == pre.elapsed_secs()
        &&& post.configuration() == pre.configuration()
    }

    /// What a screen switch leaves behind: the target screen active and
    /// the screen that was left hidden, its popup cleared.
    pub open spec fn switch_outcome(pre: Tukai, post: Tukai, target: ActiveScreenEnum) -> bool {
        &&& post.screen() == target
        &&& (target == ActiveScreenEnum::Stats ==> post.session() == (SessionView {
            active: false,
            popup_visible: false,
            ..pre.session()
        }))
        &&& (target == ActiveScreenEnum::Typing ==> post.session() == pre.session())
        &&& Tukai::same_store(pre, post)
        &&& post.exiting() == pre.exiting()
        &&& post.elapsed_secs() == pre.elapsed_secs()
        &&& post.configuration() == pre.configuration()
    }

    /// What bare navigation leaves behind: only the screen selection
    /// moves; nothing is hidden.
    pub open spec fn nav_outcome(pre: Tukai, post: Tukai, target: ActiveScreenEnum) -> bool {
        &&& post.screen() == target
        &&& post.session() == pre.session()
        &&& Tukai::same_store(pre, post)
        &&& post.exiting() == pre.exiting()
        &&& post.elapsed_secs() == pre.elapsed_secs()
        &&& post.configuration() == pre.configuration()
    }

    /// What cycling the target duration leaves behind: the next duration
    /// recorded and the session started over with it.
    pub open spec fn duration_outcome(pre: Tukai, post: Tukai, text: Seq<char>) -> bool {
        &&& post.configuration() == (TukaiConfig {
            typing_duration: pre.configuration().typing_duration.next_spec(),
            ..pre.configuration()
        })
        &&& post.session().duration == pre.configuration().typing_duration.next_spec()
        &&& post.session().text == text
        &&& post.session().input.len() == 0
        &&& post.session().errors == 0
        &&& post.session().state == SessionState::Idle
        &&& post.session().finalized == false
        &&& post.elapsed_secs() == 0
        &&& Tukai::same_store(pre, post)
        &&& post.screen() == pre.screen()
        &&& post.exiting() == pre.exiting()
    }

    /// What cycling the language leaves behind: the next language
    /// recorded and the session started over.
    pub open spec fn language_outcome(pre: Tukai, post: Tukai, text: Seq<char>) -> bool {
        &&& post.configuration() == (TukaiConfig {
            language_index: ((pre.configuration().language_index % LANGUAGE_COUNT + 1) % (
            LANGUAGE_COUNT as int)) as u32,
            ..pre.configuration()
        })
        &&& post.session().text == text
        &&& post.session().input.len() == 0
        &&& post.session().errors == 0
        &&& post.session().state == SessionState::Idle
        &&& post.session().finalized == false
        &&& post.session().duration == pre.session().duration
        &&& post.elapsed_secs() == 0
        &&& Tukai::same_store(pre, post)
        &&& post.screen() == pre.screen()
        &&& post.exiting() == pre.exiting()
    }

    /// What the reserved control combinations do, by key: reset, switch
    /// to a screen, exit with a final flush, cycle the duration and
    /// reset, toggle the background, cycle the layout, cycle the
    /// language and reset; any other control key does nothing.
    pub open spec fn ctrl_outcome(
        pre: Tukai,
        post: Tukai,
        key: KeyEvent,
        text: Seq<char>,
        r: Option<Vec<u8>>,
    ) -> bool {
        match key.code {
            KeyCode::Char(c) => {
                if c == 'r' {
                    Tukai::reset_outcome(pre, post, text) && r is None
                } else if c == 'l' {
                    Tukai::switch_outcome(pre, post, ActiveScreenEnum::Stats) && r is None
                } else if c == 'h' {
                    Tukai::switch_outcome(pre, post, ActiveScreenEnum::Typing) && r is None
                } else if c == 'c' {
                    Tukai::exit_outcome(pre, post, r)
                } else if c == 'd' {
                    Tukai::duration_outcome(pre, post, text) && r is None
                } else if c == 't' {
                    post.configuration() == (TukaiConfig {
                        has_transparent_bg: !pre.configuration().has_transparent_bg,
                        ..pre.configuration()
                    }) && post.session() == pre.session() && Tukai::same_store(pre, post)
                        && post.screen() == pre.screen() && post.exiting() == pre.exiting()
                        && post.elapsed_secs() == pre.elapsed_secs() && r is None
                } else if c == 's' {
                    post.configuration() == (TukaiConfig {
                        layout_index: ((pre.configuration().layout_index % LAYOUT_COUNT + 1) % (
                        LAYOUT_COUNT as int)) as u32,
                        ..pre.configuration()
                    }) && post.session() == pre.session() && Tukai::same_store(pre, post)
                        && post.screen() == pre.screen() && post.exiting() == pre.exiting()
                        && post.elapsed_secs() == pre.elapsed_secs() && r is None
                } else if c == 'p' {
                    Tukai::language_outcome(pre, post, text) && r is None
                } else {
                    Tukai::unchanged_outcome(pre, post) && r is None
                }
            },
            _ => Tukai::unchanged_outcome(pre, post) && r is None,
        }
    }

    /// What a key without control does: the active screen is offered it
    /// first (the typing screen consumes characters and backspace), and
    /// an unconsumed key falls back to exit on escape and to navigation
    /// on the arrow keys.
    pub open spec fn plain_outcome(
        pre: Tukai,
        post: Tukai,
        key: KeyEvent,
        r: Option<Vec<u8>>,
    ) -> bool {
        match key.code {
            KeyCode::Char(c) => if pre.screen() == ActiveScreenEnum::Typing {
                post.session() == push_spec(pre.session(), c) && Tukai::same_store(pre, post)
                    && post.screen() == pre.screen() && post.exiting() == pre.exiting()
                    && post.elapsed_secs() == pre.elapsed_secs() && post.configuration()
                    == pre.configuration() && r is None
            } else {
                Tukai::unchanged_outcome(pre, post) && r is None
            },
            KeyCode::Backspace => if pre.screen() == ActiveScreenEnum::Typing {
                post.session() == pop_spec(pre.session()) && Tukai::same_store(pre, post)
                    && post.screen() == pre.screen() && post.exiting() == pre.exiting()
                    && post.elapsed_secs() == pre.elapsed_secs() && post.configuration()
                    == pre.configuration() && r is None
            } else {
                Tukai::unchanged_outcome(pre, post) && r is None
            },
            KeyCode::Esc => Tukai::exit_outcome(pre, post, r),
            KeyCode::Left => Tukai::nav_outcome(pre, post, ActiveScreenEnum::Typing) && r is None,
            KeyCode::Right => Tukai::nav_outcome(pre, post, ActiveScreenEnum::Stats) && r is None,
            _ => Tukai::unchanged_outcome(pre, post) && r is None,
        }
    }

    /// Dispatches one keyboard event, in the documented order: reserved
    /// control combinations first — they never reach a screen — then the
    /// active screen, then the global exit and navigation fallbacks.
    /// `fresh_text` is the text a restarted session types next; it is
    /// used by the commands that reset. The result is the blob to
    /// persist when the dispatch decided to flush the store.
    pub fn handle_events(&mut self, key_event: KeyEvent, fresh_text: Vec<char>) -> (r: Option<
        Vec<u8>,
    >)
        requires
            old(self).wf(),
            fresh_text@.len() <= u32::MAX,
        ensures
            final(self).wf(),
            key_event.ctrl ==> Tukai::ctrl_outcome(
                *old(self),
                *final(self),
                key_event,
                fresh_text@,
                r,
            ),
            !key_event.ctrl ==> Tukai::plain_outcome(*old(self), *final(self), key_event, r),
    {
        if key_event.ctrl {
            match key_event.code {
                KeyCode::Char(c) => {
                    if c == 'r' {
                        self.reset(fresh_text);
                        None
                    } else if c == 'l' {
                        self.switch_active_screen(ActiveScreenEnum::Stats);
                        None
                    } else if c == 'h' {
                        self.switch_active_screen(ActiveScreenEnum::Typing);
                        None
                    } else if c == 'c' {
                        Some(self.exit())
                    } else if c == 'd' {
                        let new_duration = self.config.switch_typing_duration();
                        self.typing_screen.set_duration(new_duration);
                        self.reset(fresh_text);
                        None
                    } else if c == 't' {
                        let _ = self.config.toggle_transparent_bg();
                        None
                    } else if c == 's' {
                        let _ = self.config.switch_layout();
                        None
                    } else if c == 'p' {
                        let _ = self.config.switch_language();
                        self.reset(fresh_text);
                        None
                    } else {
                        None
                    }
                },
                _ => None,
            }
        } else {
            if self.handle_screen_events(key_event) {
                return None;
            }
            if key_event.code == KeyCode::Esc {
                Some(self.exit())
            } else if key_event.code == KeyCode::Left {
                self.active_screen = ActiveScreenEnum::Typing;
                None
            } else if key_event.code == KeyCode::Right {
                self.active_screen = ActiveScreenEnum::Stats;
                None
            } else {
                None
            }
        }
    }

    /// The session after the per-frame bookkeeping of a render pass:
    /// the typing screen is forced inactive exactly while its popup is
    /// visible, and a running session whose time is up times out.
    pub open spec fn draw_session_step(v: SessionView, elapsed: u32) -> SessionView {
        let v1 = SessionView { active: !v.popup_visible, ..v };
        if remaining_spec(elapsed, v.duration.seconds_spec()) == 0 {
            tick_spec(v1, elapsed, v.duration.seconds_spec())
        } else {
            v1
        }
    }

    /// One render pass. On the typing screen it recomputes the focus
    /// from the popup, times the session out when no time remains, and
    /// — exactly once per session — finalizes a finished session,
    /// appends its record to the store and hands out the blob that
    /// persists it. On the stats screen rendering changes nothing.
    pub fn draw(&mut self) -> (r: Option<Vec<u8>>)
        requires
            old(self).wf(),
        ensures
            final(self).wf(),
            old(self).screen() == ActiveScreenEnum::Stats ==> Tukai::unchanged_outcome(
                *old(self),
                *final(self),
            ) && final(self).stats_screen_is_active() == true && r is None,
            old(self).screen() == ActiveScreenEnum::Typing ==> ({
                let step = Tukai::draw_session_step(old(self).session(), old(self).elapsed_secs());
                &&& final(self).elapsed_secs() == old(self).elapsed_secs()
                &&& final(self).screen() == old(self).screen()
                &&& final(self).exiting() == old(self).exiting()
                &&& final(self).configuration() == old(self).configuration()
                &&& if step.is_terminal() && !step.finalized {
                    &&& final(self).session() == (SessionView {
                        finalized: true,
                        popup_visible: true,
                        ..classify_all_spec(step)
                    })
                    &&& final(self).stats_log() == old(self).stats_log().push(
                        stat_of(step, old(self).elapsed_secs()),
                    )
                    &&& final(self).activities_log() == old(self).activities_log()
                    &&& (r matches Some(b) && b@ == enc_store(
                        final(self).stats_log(),
                        final(self).activities_log(),
                    ))
                } else {
                    &&& final(self).session() == step
                    &&& Tukai::same_store(*old(self), *final(self))
                    &&& r is None
                }
            }),
    {
        match self.active_screen {
            ActiveScreenEnum::Stats => {
                // the stats screen has no popup, so the render pass
                // always recomputes it as active
                self.stats_screen_active = true;
                None
            },
            ActiveScreenEnum::Typing => {
                if self.typing_screen.is_popup_visible() {
                    if self.typing_screen.is_active() {
                        self.typing_screen.toggle_active();
                    }
                } else {
                    if !self.typing_screen.is_active() {
                        self.typing_screen.toggle_active();
                    }
                }
                proof {
                    assert(self.session() =~= (SessionView {
                        active: !old(self).session().popup_visible,
                        ..old(self).session()
                    }));
                }
                let total = self.typing_screen.get_config().typing_duration.seconds();
                if self.clock.remaining(total) == 0 {
                    let elapsed = self.clock.time_secs;
                    self.typing_screen.tick(elapsed, total);
                }
                if self.typing_screen.is_finished() && !self.typing_screen.is_finalized() {
                    let elapsed = self.clock.time_secs;
                    let finalized_stat = self.typing_screen.finalize(elapsed);
                    match finalized_stat {
                        Some(stat) => {
                            let _ = self.storage_handler.insert_into_stats(&stat);
                            self.typing_screen.set_popup_visible(true);
                            proof {
                                assert(self.session() =~= (SessionView {
                                    finalized: true,
                                    popup_visible: true,
                                    ..classify_all_spec(
                                        Tukai::draw_session_step(
                                            old(self).session(),
                                            old(self).elapsed_secs(),
                                        ),
                                    )
                                }));
                            }
                            Some(self.storage_handler.flush())
                        },
                        None => {
                            proof {
                                assert(false);
                            }
                            None
                        },
                    }
                } else {
                    None
                }
            },
        }
    }

    /// Seconds left of the configured duration; never negative.
    pub fn get_remaining_time(&self) -> (r: u32)
        ensures
            r == remaining_spec(self.elapsed_secs(), self.session().duration.seconds_spec()),
    {
        let total = self.typing_screen.get_config().typing_duration.seconds();
        self.clock.remaining(total)
    }

    pub fn get_active_screen(&self) -> (r: ActiveScreenEnum)
        ensures
            r == self.screen(),
    {
        self.active_screen
    }

    /// The typing screen, for display.
    pub fn typing_screen_ref(&self) -> (r: &TypingWindow)
        ensures
            r@ == self.session(),
    {
        &self.typing_screen
    }

    /// The store, for display.
    pub fn storage_ref(&self) -> (r: &StorageHandler)
        ensures
            r.stats_seq() == self.stats_log(),
            r.activities_seq() == self.activities_log(),
    {
        &self.storage_handler
    }

    /// One render pass over the typing screen's classification cache,
    /// for display: every typed position classified, the error counter
    /// unchanged by repetition.
    pub fn render_classes(&mut self) -> (r: Vec<crate::session::CharClass>)
        requires
            old(self).wf(),
        ensures
            final(self).wf(),
            final(self).session() == classify_all_spec(old(self).session()),
            r@ == final(self).session().classes,
            Tukai::same_store(*old(self), *final(self)),
            final(self).screen() == old(self).screen(),
            final(self).exiting() == old(self).exiting(),
            final(self).elapsed_secs() == old(self).elapsed_secs(),
            final(self).configuration() == old(self).configuration(),
    {
        self.typing_screen.classes()
    }
}

} // verus!
