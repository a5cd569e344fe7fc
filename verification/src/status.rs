//! The status surface: at most one transient message with a decay counter
//! driven by the periodic tick.
use vstd::prelude::*;

verus! {

/// Severity of a transient status message.
#[derive(Clone, Copy, PartialEq, Eq, Structural, Debug)]
pub enum Severity {
    Info,
    Error,
}

/// A transient message: text, severity, and how many more ticks it stays.
pub struct StatusMessage {
    pub text: String,
    pub severity: Severity,
    pub remaining_ticks: u64,
}

/// The whole effect of one tick on the status surface: the remaining time
/// of the current message drops by exactly one, the message disappears
/// when it runs out, and without a message nothing changes.
pub open spec fn status_ticked(pre: StatusBar, post: StatusBar) -> bool {
    match pre.msg {
        None => post == pre,
        Some(m) => if m.remaining_ticks <= 1 {
            post.msg is None
        } else {
            post.msg == Some(
                StatusMessage {
                    text: m.text,
                    severity: m.severity,
                    remaining_ticks: (m.remaining_ticks - 1) as u64,
                },
            )
        },
    }
}

/// Single-slot status display. A new message always replaces the old one;
/// the tick decays the current one until it is gone.
pub struct StatusBar {
    pub msg: Option<StatusMessage>,
}

impl StatusBar {
    /// A live message always has ticks left: a message whose time is up
    /// reads as absent.
    pub open spec fn wf(self) -> bool {
        match self.msg {
            Some(m) => m.remaining_ticks > 0,
            None => true,
        }
    }

    /// Whether a message is currently shown.
    pub open spec fn visible(self) -> bool {
        self.msg is Some
    }

    pub fn new() -> (r: StatusBar)
        ensures
            r.wf(),
            r.msg is None,
    {
        StatusBar { msg: None }
    }

    /// Replaces any current message unconditionally. A time-to-live of zero
    /// means the message is already expired, so nothing is shown.
    pub fn set_message(&mut self, text: String, severity: Severity, ttl_ticks: u64)
        ensures
            final(self).wf(),
            ttl_ticks == 0 ==> final(self).msg is None,
            ttl_ticks > 0 ==> final(self).msg == Some(StatusMessage {
                text,
                severity,
                remaining_ticks: ttl_ticks,
            }),
    {
        if ttl_ticks == 0 {
            self.msg = None;
        } else {
            self.msg = Some(StatusMessage { text, severity, remaining_ticks: ttl_ticks });
        }
    }

    /// One tick of decay: the remaining time of the current message drops by
    /// exactly one, and the message disappears when it reaches zero. Without
    /// a message a tick changes nothing.
    pub fn tick(&mut self)
        requires
            old(self).wf(),
        ensures
            final(self).wf(),
            status_ticked(*old(self), *final(self)),
            old(self).msg is None ==> final(self).msg == old(self).msg,
            (match old(self).msg {
                Some(m) => {
                    if m.remaining_ticks == 1 {
                        final(self).msg is None
                    } else {
                        final(self).msg == Some(StatusMessage {
                            text: m.text,
                            severity: m.severity,
                            remaining_ticks: (m.remaining_ticks - 1) as u64,
                        })
                    }
                },
                None => true,
            }),
    {
        let expired: bool = match &self.msg {
            Some(m) => m.remaining_ticks <= 1,
            None => false,
        };
        if expired {
            self.msg = None;
        } else {
            match &mut self.msg {
                Some(m) => {
                    m.remaining_ticks = m.remaining_ticks - 1;
                },
                None => {},
            }
        }
    }
}

/// Law: once a message with `ttl` remaining ticks is set, its remaining
/// time falls by exactly one per tick — after `k < ttl` ticks it shows
/// `ttl - k` — and from the `ttl`-th tick on the message reads as absent.
pub proof fn lemma_message_decay(states: Seq<StatusBar>, msg0: StatusMessage, k: int)
    requires
        0 < states.len(),
        0 < msg0.remaining_ticks,
        states[0].msg == Some(msg0),
        forall|i: int|
            0 <= i < states.len() - 1 ==> status_ticked(#[trigger] states[i], states[i + 1]),
        0 <= k < states.len(),
    ensures
        k < msg0.remaining_ticks ==> states[k].msg == Some(
            StatusMessage {
                text: msg0.text,
                severity: msg0.severity,
                remaining_ticks: (msg0.remaining_ticks - k) as u64,
            },
        ),
        msg0.remaining_ticks <= k ==> states[k].msg is None,
    decreases k,
{
    if k > 0 {
        lemma_message_decay(states, msg0, k - 1);
        assert(status_ticked(states[k - 1], states[k]));
    } else {
        assert(states[0].msg == Some(
            StatusMessage {
                text: msg0.text,
                severity: msg0.severity,
                remaining_ticks: msg0.remaining_ticks,
            },
        ));
    }
}

} // verus!
