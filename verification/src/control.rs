//! Shutdown coordination: the flag that stops the listeners and the
//! broadcast that closes every registered connection.

use vstd::prelude::*;
use vstd::string::*;
use crate::registry::ClientRegistry;
use crate::registry::PeerAddress;
use crate::websocket::Gui2WsMessage;
use crate::websocket::Notice;
use crate::websocket::Ws2GuiMessage;

verus! {

/// The signal that stops both listeners.
///
/// It starts lowered and can only be raised: no operation lowers it again.
#[derive(Debug)]
pub struct ShutdownFlag {
    raised: bool,
}

impl ShutdownFlag {
    /// Whether the flag is up.
    pub closed spec fn raised(&self) -> bool {
        self.raised
    }

    /// A lowered flag.
    pub fn new() -> (flag: ShutdownFlag)
        ensures
            !flag.raised(),
    {
        ShutdownFlag { raised: false }
    }

    /// Tells whether the flag is up.
    pub fn is_raised(&self) -> (r: bool)
        ensures
            r == self.raised(),
    {
        self.raised
    }

    /// Raises the flag. It stays up from here on.
    pub fn raise(&mut self)
        ensures
            final(self).raised(),
    {
        self.raised = true;
    }
}

/// The notification of a connection that could not be closed.
pub open spec fn close_failure_notice(reason: Seq<char>) -> Notice {
    Notice::Error("Could not shutdown websocket: "@ + reason)
}

/// The notifications that a round of closing gives rise to: one for each
/// failure, in the order of the attempts. A failure does not hide the
/// outcomes that follow it.
pub open spec fn failure_notices(outcomes: Seq<Result<(), String>>) -> Seq<Notice>
    decreases outcomes.len(),
{
    if outcomes.len() == 0 {
        Seq::empty()
    } else {
        let earlier = failure_notices(outcomes.drop_last());
        match outcomes.last() {
            Ok(_) => earlier,
            Err(reason) => earlier.push(close_failure_notice(reason@)),
        }
    }
}

/// The notifications in `messages`, as mathematical values.
pub open spec fn notices(messages: Seq<Ws2GuiMessage>) -> Seq<Notice> {
    messages.map_values(|message: Ws2GuiMessage| message@)
}

/// Whether `outcomes` can be what `close` returns for the handles of
/// `entries`, one call for each entry, in order.
pub open spec fn closed_each<H, F: Fn(&H) -> Result<(), String>>(
    close: F,
    entries: Seq<(PeerAddress, H)>,
    outcomes: Seq<Result<(), String>>,
) -> bool {
    &&& outcomes.len() == entries.len()
    &&& forall|i: int|
        0 <= i < entries.len() ==> call_ensures(close, (&entries[i].1,), #[trigger] outcomes[i])
}

/// Turns the outcomes of closing each registered connection into the
/// notifications owed to the host: an error for each failure, nothing for a
/// success.
pub fn shutdown_report(outcomes: &Vec<Result<(), String>>) -> (reports: Vec<Ws2GuiMessage>)
    ensures
        notices(reports@) == failure_notices(outcomes@),
{
    let mut reports: Vec<Ws2GuiMessage> = Vec::new();
    let mut at: usize = 0;
    assert(outcomes@.take(0) =~= Seq::<Result<(), String>>::empty());
    while at < outcomes.len()
        invariant
            at <= outcomes@.len(),
            notices(reports@) == failure_notices(outcomes@.take(at as int)),
        decreases outcomes@.len() - at,
    {
        let ghost before = reports@;
        assert(outcomes@.take(at + 1).drop_last() =~= outcomes@.take(at as int));
        assert(outcomes@.take(at + 1).last() == outcomes@[at as int]);
        match &outcomes[at] {
            Ok(_) => {},
            Err(reason) => {
                let mut text = String::from_str("Could not shutdown websocket: ");
                text.append(reason.as_str());
                reports.push(Ws2GuiMessage::Error(text));
                assert(notices(reports@) =~= notices(before).push(
                    close_failure_notice(reason@),
                ));
            },
        }
        at += 1;
    }
    assert(outcomes@.take(at as int) =~= outcomes@);
    reports
}

/// Handles what the command channel delivered: a command, or `None` when the
/// channel has closed. Both mean shutdown.
///
/// Every registered connection is closed with `close`, in the order of
/// registration; a connection that cannot be closed is reported and the
/// others are closed all the same. Then the flag is raised.
pub fn on_command<H, F: Fn(&H) -> Result<(), String>>(
    command: Option<Gui2WsMessage>,
    registry: &ClientRegistry<H>,
    flag: &mut ShutdownFlag,
    close: F,
) -> (reports: Vec<Ws2GuiMessage>)
    requires
        forall|i: int|
            0 <= i < registry.entries().len() ==> call_requires(
                close,
                (&(#[trigger] registry.entries()[i]).1,),
            ),
    ensures
        final(flag).raised(),
        exists|outcomes: Seq<Result<(), String>>|
            closed_each(close, registry.entries(), outcomes) && notices(reports@)
                == #[trigger] failure_notices(outcomes),
{
    let count = registry.len();
    let mut outcomes: Vec<Result<(), String>> = Vec::new();
    let mut at: usize = 0;
    while at < count
        invariant
            count == registry.entries().len(),
            at == outcomes@.len(),
            at <= count,
            forall|i: int|
                0 <= i < registry.entries().len() ==> call_requires(
                    close,
                    (&(#[trigger] registry.entries()[i]).1,),
                ),
            forall|i: int|
                0 <= i < at ==> call_ensures(
                    close,
                    (&registry.entries()[i].1,),
                    #[trigger] outcomes@[i],
                ),
        decreases count - at,
    {
        if let Some(handle) = registry.handle_at(at) {
            assert(*handle == registry.entries()[at as int].1);
            let outcome = close(handle);
            outcomes.push(outcome);
        }
        at += 1;
    }
    let reports = shutdown_report(&outcomes);
    flag.raise();
    reports
}

} // verus!
