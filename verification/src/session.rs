//! The viewer session's decision logic: a session streams until a send
//! to the viewer fails, merging two sources — rendered-HTML pushes from
//! the hub and raw file-change notifications — into outbound frames. The
//! waiting itself is the runtime's; what to send for each observed event,
//! and when to close, is decided here.

use vstd::prelude::*;

verus! {

/// One event observed by a session's merge loop.
#[derive(Clone, Debug, PartialEq)]
pub enum SessionEvent {
    /// A rendered payload arrived over the document's fan-out channel.
    PreviewHtml(String),
    /// The document changed on disk.
    FileChanged,
}

/// What the session sends for an event.
#[derive(Clone, Debug, PartialEq)]
pub enum SessionAction {
    /// Forward the payload verbatim.
    Forward(String),
    /// Tell the viewer to reload the whole document.
    SignalReload,
}

/// A session streams until its connection is gone.
#[derive(Clone, Copy, Debug, PartialEq, Eq, Structural)]
pub enum SessionState {
    Streaming,
    Closed,
}

/// What to send for one observed event: a hub payload is forwarded
/// verbatim; a file change becomes the reload signal.
pub fn session_step(ev: SessionEvent) -> (a: SessionAction)
    ensures
        match ev {
            SessionEvent::PreviewHtml(h) => a == SessionAction::Forward(h),
            SessionEvent::FileChanged => a == SessionAction::SignalReload,
        },
{
    match ev {
        SessionEvent::PreviewHtml(h) => SessionAction::Forward(h),
        SessionEvent::FileChanged => SessionAction::SignalReload,
    }
}

/// The text frame an action puts on the wire: a forwarded payload as it
/// is, and the empty string as the reload sentinel, distinct from every
/// rendered payload the preview intake produces.
pub fn outbound_frame(a: SessionAction) -> (f: String)
    ensures
        match a {
            SessionAction::Forward(h) => f == h,
            SessionAction::SignalReload => f@ == Seq::<char>::empty(),
        },
{
    match a {
        SessionAction::Forward(h) => h,
        SessionAction::SignalReload => {
            let f = String::new();
            proof {
                assert(f@ =~= Seq::<char>::empty());
            }
            f
        },
    }
}

/// The state after attempting a send: streaming continues while sends
/// succeed; the first failed send closes the session, upon which its
/// subscriptions and its filesystem watch are released.
pub fn session_after_send(send_ok: bool) -> (s: SessionState)
    ensures
        send_ok ==> s == SessionState::Streaming,
        !send_ok ==> s == SessionState::Closed,
{
    if send_ok {
        SessionState::Streaming
    } else {
        SessionState::Closed
    }
}

} // verus!
