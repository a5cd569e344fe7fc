//! The controller: one application state and one dispatch step per event.
//! The surrounding front end renders, blocks for the next event, and calls
//! `handle_event` until `running` goes false; every state change is decided
//! and proved here.
use vstd::prelude::*;
use crate::bridge::{EngineError, QueryError, SqlEngine, engine_message, to_query_error};
use crate::command::{CommandId, CommandRegistry, entry_matches, token_of};
use crate::command::lemma_lookup_unique;
use crate::dataset::DatasetHandle;
use crate::event::{Event, KeyCode, KeyEvent};
use crate::status::{Severity, StatusBar, status_ticked};
use crate::view::{Tabular, moved};

verus! {

/// How many ticks a fresh status message stays up.
pub const STATUS_TTL: u64 = 8;

/// Whether keys browse the table or edit the command line.
#[derive(Clone, Copy, PartialEq, Eq, Structural, Debug)]
pub enum Mode {
    Browse,
    Command,
}

/// The application state the event loop drives.
pub struct App {
    pub tabular: Tabular,
    pub status_bar: StatusBar,
    pub registry: CommandRegistry,
    pub mode: Mode,
    /// The command line being typed, printable ASCII.
    pub input: Vec<u8>,
    pub running: bool,
    /// The id the next query result will carry.
    pub next_id: u64,
}

/// The control surface (everything but view and status) is unchanged.
pub open spec fn same_control(pre: App, post: App) -> bool {
    post.registry == pre.registry && post.mode == pre.mode && post.input == pre.input
        && post.running == pre.running && post.next_id == pre.next_id
}

/// View, status and registry are unchanged.
pub open spec fn same_display(pre: App, post: App) -> bool {
    post.tabular == pre.tabular && post.status_bar == pre.status_bar && post.registry
        == pre.registry
}

/// One tick: both tick targets advance, nothing else moves.
pub open spec fn tick_step(pre: App, post: App) -> bool {
    post.tabular.same_but_tick(pre.tabular) && post.tabular.tick_count == (if pre.tabular.tick_count
        < u64::MAX {
        pre.tabular.tick_count + 1
    } else {
        pre.tabular.tick_count as int
    }) && status_ticked(pre.status_bar, post.status_bar) && same_control(pre, post)
}

/// A navigation key: the view moves as `moved` says, nothing else does.
pub open spec fn nav_step(pre: App, post: App, dr: int, dc: int) -> bool {
    post == (App { tabular: moved(pre.tabular, dr, dc), ..pre })
}

/// The status surface shows an error that will decay after `STATUS_TTL`
/// ticks.
pub open spec fn error_status(s: StatusBar) -> bool {
    match s.msg {
        Some(m) => m.severity == Severity::Error && m.remaining_ticks == STATUS_TTL,
        None => false,
    }
}

/// A query was submitted: either some well-formed result dataset carrying
/// the promised id replaced the displayed one and the cursor started over
/// at the origin, or the whole display is exactly as it was and the status
/// surface reports the failure. Nothing in between.
pub open spec fn query_step(pre: App, post: App) -> bool {
    post.running == pre.running && (query_success(pre, post) || query_failure(pre, post))
}

/// The success half of `query_step`.
pub open spec fn query_success(pre: App, post: App) -> bool {
    post.tabular.dataset.wf() && post.tabular.dataset.id == pre.next_id
        && post.tabular.cursor_row == 0 && post.tabular.cursor_col == 0
        && post.tabular.offset_row == 0 && post.tabular.offset_col == 0
        && post.tabular.page_rows == pre.tabular.page_rows && post.tabular.page_cols
        == pre.tabular.page_cols && post.tabular.tick_count == pre.tabular.tick_count
        && post.status_bar == pre.status_bar && post.next_id == (if pre.next_id < u64::MAX {
        pre.next_id + 1
    } else {
        pre.next_id as int
    })
}

/// The failure half of `query_step`: the displayed dataset's identity is
/// untouched.
pub open spec fn query_failure(pre: App, post: App) -> bool {
    post.tabular == pre.tabular && error_status(post.status_bar) && post.next_id == pre.next_id
}

/// What dispatching one matched command does to view, status, running and
/// the id counter.
pub open spec fn dispatch_step(pre: App, post: App, id: CommandId) -> bool {
    match id {
        CommandId::Quit => !post.running && post.tabular == pre.tabular && post.status_bar
            == pre.status_bar && post.next_id == pre.next_id,
        CommandId::MoveUp => dispatch_nav(pre, post, -1, 0),
        CommandId::MoveDown => dispatch_nav(pre, post, 1, 0),
        CommandId::MoveLeft => dispatch_nav(pre, post, 0, -1),
        CommandId::MoveRight => dispatch_nav(pre, post, 0, 1),
        CommandId::Query => query_step(pre, post),
    }
}

/// The navigation case of a dispatched command.
pub open spec fn dispatch_nav(pre: App, post: App, dr: int, dc: int) -> bool {
    post.tabular == moved(pre.tabular, dr, dc) && post.status_bar == pre.status_bar
        && post.running == pre.running && post.next_id == pre.next_id
}

/// Submitting the typed line: the mode returns to browsing and the line is
/// cleared; the unique registry entry matching the lower-cased leading
/// token decides what happens, and an unmatched token only reports an
/// error.
pub open spec fn submit_step(pre: App, post: App) -> bool {
    post.mode is Browse && post.input@ == Seq::<u8>::empty() && post.registry == pre.registry && {
        let tok = token_of(pre.input@);
        if exists|i: int| entry_matches(pre.registry.entries@, i, tok) {
            let i = choose|i: int| entry_matches(pre.registry.entries@, i, tok);
            dispatch_step(pre, post, pre.registry.entries@[i].id)
        } else {
            post.tabular == pre.tabular && post.running == pre.running && post.next_id
                == pre.next_id && error_status(post.status_bar)
        }
    }
}

/// A key press in browse mode.
pub open spec fn browse_key_step(pre: App, post: App, k: KeyEvent) -> bool {
    match k.code {
        KeyCode::Up => nav_step(pre, post, -1, 0),
        KeyCode::Down => nav_step(pre, post, 1, 0),
        KeyCode::Left => nav_step(pre, post, 0, -1),
        KeyCode::Right => nav_step(pre, post, 0, 1),
        KeyCode::Char(c) => if c == 113 {
            post == (App { running: false, ..pre })
        } else if c == 58 {
            post.mode is Command && post.input@ == Seq::<u8>::empty() && post.tabular == pre.tabular
                && post.status_bar == pre.status_bar && post.registry == pre.registry
                && post.running == pre.running && post.next_id == pre.next_id
        } else {
            post == pre
        },
        _ => post == pre,
    }
}

/// A key press while the command line is edited.
pub open spec fn command_key_step(pre: App, post: App, k: KeyEvent) -> bool {
    match k.code {
        KeyCode::Char(c) => if 32 <= c && c < 127 {
            post.input@ == pre.input@.push(c) && post.mode == pre.mode && same_display(pre, post)
                && post.running == pre.running && post.next_id == pre.next_id
        } else {
            post == pre
        },
        KeyCode::Backspace => if pre.input@.len() == 0 {
            post == pre
        } else {
            post.input@ == pre.input@.drop_last() && post.mode == pre.mode && same_display(
                pre,
                post,
            ) && post.running == pre.running && post.next_id == pre.next_id
        },
        KeyCode::Esc => post.mode is Browse && post.input@ == Seq::<u8>::empty() && same_display(
            pre,
            post,
        ) && post.running == pre.running && post.next_id == pre.next_id,
        KeyCode::Enter => submit_step(pre, post),
        _ => post == pre,
    }
}

/// One key press, according to the mode it arrives in.
pub open spec fn key_step(pre: App, post: App, k: KeyEvent) -> bool {
    match pre.mode {
        Mode::Browse => browse_key_step(pre, post, k),
        Mode::Command => command_key_step(pre, post, k),
    }
}

impl App {
    pub open spec fn wf(self) -> bool {
        self.tabular.wf() && self.status_bar.wf() && self.registry.wf()
    }

    /// A fresh application over the loaded dataset: browsing from the
    /// origin, no message, the loop set to run.
    pub fn new(handle: DatasetHandle, registry: CommandRegistry) -> (r: App)
        requires
            handle.wf(),
            registry.wf(),
        ensures
            r.wf(),
            r.tabular.dataset == handle,
            r.tabular.cursor_row == 0 && r.tabular.cursor_col == 0,
            r.status_bar.msg is None,
            r.registry == registry,
            r.mode is Browse,
            r.input@ == Seq::<u8>::empty(),
            r.running,
            r.next_id == (if handle.id < u64::MAX {
                handle.id + 1
            } else {
                handle.id as int
            }),
    {
        let next_id: u64 = if handle.id < u64::MAX {
            handle.id + 1
        } else {
            handle.id
        };
        App {
            tabular: Tabular::new(handle),
            status_bar: StatusBar::new(),
            registry,
            mode: Mode::Browse,
            input: Vec::new(),
            running: true,
            next_id,
        }
    }

    /// One step of the state machine: exactly one event is consumed and
    /// dispatched. Ticks advance the two tick targets, keys act as the
    /// mode says, and mouse or resize notices change nothing here.
    pub fn handle_event(&mut self, ev: Event, engine: &mut SqlEngine)
        requires
            old(self).wf(),
        ensures
            final(self).wf(),
            ev == Event::Tick ==> tick_step(*old(self), *final(self)),
            (ev == Event::Mouse || ev matches Event::Resize(_, _)) ==> *final(self) == *old(self),
            (match ev {
                Event::Key(k) => key_step(*old(self), *final(self), k),
                _ => true,
            }),
    {
        match ev {
            Event::Tick => {
                self.tabular.tick();
                self.status_bar.tick();
            },
            Event::Key(k) => {
                self.on_key(k, engine);
            },
            Event::Mouse => {},
            Event::Resize(_, _) => {},
        }
    }

    /// One key press, in the current mode.
    fn on_key(&mut self, k: KeyEvent, engine: &mut SqlEngine)
        requires
            old(self).wf(),
        ensures
            final(self).wf(),
            key_step(*old(self), *final(self), k),
    {
        match self.mode {
            Mode::Browse => {
                match k.code {
                    KeyCode::Up => self.tabular.move_cursor(-1, 0),
                    KeyCode::Down => self.tabular.move_cursor(1, 0),
                    KeyCode::Left => self.tabular.move_cursor(0, -1),
                    KeyCode::Right => self.tabular.move_cursor(0, 1),
                    KeyCode::Char(c) => {
                        if c == 113 {
                            self.running = false;
                        } else if c == 58 {
                            self.mode = Mode::Command;
                            self.input = Vec::new();
                        }
                    },
                    _ => {},
                }
            },
            Mode::Command => {
                match k.code {
                    KeyCode::Char(c) => {
                        if 32 <= c && c < 127 {
                            self.input.push(c);
                        }
                    },
                    KeyCode::Backspace => {
                        if self.input.len() > 0 {
                            self.input.pop();
                        }
                    },
                    KeyCode::Esc => {
                        self.mode = Mode::Browse;
                        self.input = Vec::new();
                    },
                    KeyCode::Enter => {
                        self.submit(engine);
                    },
                    _ => {},
                }
            },
        }
    }

    /// Submits the typed command line: looks the leading token up in the
    /// registry and dispatches the unique match, or reports an unknown
    /// command; either way the line is cleared and browsing resumes.
    pub fn submit(&mut self, engine: &mut SqlEngine)
        requires
            old(self).wf(),
        ensures
            final(self).wf(),
            submit_step(*old(self), *final(self)),
    {
        let looked = self.registry.lookup(self.input.as_slice());
        self.mode = Mode::Browse;
        self.input = Vec::new();
        match looked {
            None => {
                self.status_bar.set_message(
                    "unknown command".to_owned(),
                    Severity::Error,
                    STATUS_TTL,
                );
            },
            Some((id, rest)) => {
                proof {
                    let tok = token_of(old(self).input@);
                    let j = choose|j: int|
                        entry_matches(old(self).registry.entries@, j, tok) && old(
                            self,
                        ).registry.entries@[j].id == id;
                    let i = choose|i: int| entry_matches(old(self).registry.entries@, i, tok);
                    lemma_lookup_unique(old(self).registry, tok, i, j);
                }
                match id {
                    CommandId::Quit => {
                        self.running = false;
                    },
                    CommandId::MoveUp => self.tabular.move_cursor(-1, 0),
                    CommandId::MoveDown => self.tabular.move_cursor(1, 0),
                    CommandId::MoveLeft => self.tabular.move_cursor(0, -1),
                    CommandId::MoveRight => self.tabular.move_cursor(0, 1),
                    CommandId::Query => self.run_query(rest, engine),
                }
            },
        }
    }

    /// Runs the argument text as a query: a successful result replaces the
    /// displayed dataset atomically (cursor and viewport start over), a
    /// failure leaves the display exactly as it was and reports through
    /// the status surface.
    pub fn run_query(&mut self, query: Vec<u8>, engine: &mut SqlEngine)
        requires
            old(self).wf(),
        ensures
            final(self).wf(),
            final(self).mode == old(self).mode,
            final(self).input == old(self).input,
            final(self).registry == old(self).registry,
            query_step(*old(self), *final(self)),
    {
        let text: String = bytes_to_string(query.as_slice());
        let r = engine.execute(text.as_str());
        self.apply_query_result(r);
    }

    /// The decision on a query's outcome, exact for every value of it:
    /// `Ok` installs the result as the new dataset under the promised id
    /// and resets cursor and viewport; `Err` changes nothing but the
    /// status surface.
    pub fn apply_query_result(&mut self, r: Result<crate::dataset::Frame, EngineError>)
        requires
            old(self).wf(),
        ensures
            final(self).wf(),
            final(self).mode == old(self).mode,
            final(self).input == old(self).input,
            final(self).registry == old(self).registry,
            r is Ok ==> query_success(*old(self), *final(self)),
            r matches Ok(f) ==> final(self).tabular.dataset.frame == f,
            r is Err ==> query_failure(*old(self), *final(self)),
            r matches Err(e) ==> (match final(self).status_bar.msg {
                Some(m) => m.text@ == engine_message(e),
                None => false,
            }),
            query_step(*old(self), *final(self)),
    {
        match r {
            Ok(frame) => {
                let h = DatasetHandle::new(frame, self.next_id);
                self.tabular.replace_dataset(h);
                if self.next_id < u64::MAX {
                    self.next_id = self.next_id + 1;
                }
            },
            Err(e) => {
                let qe: QueryError = to_query_error(e);
                self.status_bar.set_message(qe.message, Severity::Error, STATUS_TTL);
            },
        }
    }
}

/// Relies on String::from_utf8_lossy: the typed bytes as query text; on
/// ASCII input (all the command line accepts) the decoding is exact,
/// byte for character.
#[verifier::external_body]
fn bytes_to_string(b: &[u8]) -> (r: String)
    ensures
        (forall|i: int| 0 <= i < b@.len() ==> b@[i] < 128) ==> r@ == b@.map_values(
            |x: u8| x as char,
        ),
{
    String::from_utf8_lossy(b).into_owned()
}

} // verus!
