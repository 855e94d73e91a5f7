use vstd::prelude::*;
use crate::bytes;

verus! {

/// A message read from a channel while a command runs.
#[derive(Debug)]
pub enum ChannelMsg {
    /// A chunk of the command's output.
    Data { data: Vec<u8> },
    /// The command's exit status.
    ExitStatus { exit_status: u32 },
    /// Any other event; it carries nothing that the result reports.
    Other,
}

/// What a command gave back.
#[derive(Debug)]
pub struct ExecOutput {
    /// The exit status, or 0 if the channel closed without announcing one.
    pub status: u32,
    /// Every byte of output, in the order received.
    pub output: Vec<u8>,
}

/// The status reported when the channel closed without announcing one. This
/// is leniency, not a success signal: see `ExecDrain::status_observed`.
pub const DEFAULT_EXIT_STATUS: u32 = 0;

/// The output bytes that one message carries.
pub open spec fn payload(msg: ChannelMsg) -> Seq<u8> {
    match msg {
        ChannelMsg::Data { data } => data@,
        _ => Seq::empty(),
    }
}

/// The status known after `msg`, when `before` was known before it.
pub open spec fn latest_status(before: Option<u32>, msg: ChannelMsg) -> Option<u32> {
    match msg {
        ChannelMsg::ExitStatus { exit_status } => Some(exit_status),
        _ => before,
    }
}

/// All data chunks of `msgs`, concatenated in order.
pub open spec fn data_of(msgs: Seq<ChannelMsg>) -> Seq<u8>
    decreases msgs.len(),
{
    if msgs.len() == 0 {
        Seq::empty()
    } else {
        data_of(msgs.drop_last()) + payload(msgs.last())
    }
}

/// The exit status that `msgs` announced last, if any did.
pub open spec fn status_of(msgs: Seq<ChannelMsg>) -> Option<u32>
    decreases msgs.len(),
{
    if msgs.len() == 0 {
        None
    } else {
        latest_status(status_of(msgs.drop_last()), msgs.last())
    }
}

/// The status that a result reports for what was observed.
pub open spec fn reported_status(observed: Option<u32>) -> u32 {
    match observed {
        Some(s) => s,
        None => DEFAULT_EXIT_STATUS,
    }
}

/// The running result of one command execution: feed it each message as it
/// arrives, then take the result when the channel reports its end.
pub struct ExecDrain {
    output: Vec<u8>,
    status: Option<u32>,
}

impl ExecDrain {
    /// The output accumulated so far.
    pub closed spec fn output(&self) -> Seq<u8> {
        self.output@
    }

    /// The exit status seen last, if any was seen.
    pub closed spec fn status(&self) -> Option<u32> {
        self.status
    }

    /// Nothing received yet.
    pub fn new() -> (d: ExecDrain)
        ensures
            d.output() == Seq::<u8>::empty(),
            d.status() is None,
    {
        ExecDrain { output: Vec::new(), status: None }
    }

    /// Take in the next message of the channel: data is appended, an exit
    /// status replaces the one seen before, anything else changes nothing.
    pub fn absorb(&mut self, msg: &ChannelMsg)
        ensures
            final(self).output() == old(self).output() + payload(*msg),
            final(self).status() == latest_status(old(self).status(), *msg),
    {
        match msg {
            ChannelMsg::Data { data } => {
                bytes::append(&mut self.output, data.as_slice());
            },
            ChannelMsg::ExitStatus { exit_status } => {
                self.status = Some(*exit_status);
            },
            ChannelMsg::Other => {
                assert(self.output@ + Seq::<u8>::empty() == self.output@);
            },
        }
    }

    /// Whether the peer announced an exit status at all. Callers for whom the
    /// lenient default is not good enough ask this before they take the result.
    pub fn status_observed(&self) -> (seen: bool)
        ensures
            seen == (self.status() is Some),
    {
        self.status.is_some()
    }

    /// The channel reported its end: the result.
    pub fn finish(self) -> (r: ExecOutput)
        ensures
            r.output@ == self.output(),
            r.status == reported_status(self.status()),
    {
        let status: u32 = match self.status {
            Some(s) => s,
            None => DEFAULT_EXIT_STATUS,
        };
        ExecOutput { status, output: self.output }
    }
}

/// The result of a command whose channel delivered exactly `msgs`, in that
/// order, before it reported its end.
pub fn collect(msgs: &Vec<ChannelMsg>) -> (r: ExecOutput)
    ensures
        r.output@ == data_of(msgs@),
        r.status == reported_status(status_of(msgs@)),
{
    let mut drain = ExecDrain::new();
    let mut i: usize = 0;
    while i < msgs.len()
        invariant
            i <= msgs.len(),
            drain.output() == data_of(msgs@.take(i as int)),
            drain.status() == status_of(msgs@.take(i as int)),
        decreases msgs.len() - i,
    {
        drain.absorb(&msgs[i]);
        i += 1;
        assert(msgs@.take(i as int).drop_last() == msgs@.take(i - 1));
    }
    assert(msgs@.take(i as int) == msgs@);
    drain.finish()
}

/// Draining two runs of messages one after the other gives the first run's
/// data followed by the second's: order of receipt is order of output.
pub proof fn lemma_data_of_concat(first: Seq<ChannelMsg>, second: Seq<ChannelMsg>)
    ensures
        data_of(first + second) == data_of(first) + data_of(second),
    decreases second.len(),
{
    if second.len() == 0 {
        assert(first + second == first);
    } else {
        lemma_data_of_concat(first, second.drop_last());
        assert((first + second).drop_last() == first + second.drop_last());
        assert((first + second).last() == second.last());
    }
}

/// A run of messages without an exit status reports the default status 0.
pub proof fn lemma_no_status_reports_default(msgs: Seq<ChannelMsg>)
    requires
        forall|i: int| 0 <= i < msgs.len() ==> !(#[trigger] msgs[i] is ExitStatus),
    ensures
        status_of(msgs) is None,
        reported_status(status_of(msgs)) == 0,
    decreases msgs.len(),
{
    if msgs.len() > 0 {
        lemma_no_status_reports_default(msgs.drop_last());
    }
}

/// The status reported is the one announced last, whatever came before or
/// after it that was no exit status.
pub proof fn lemma_last_status_wins(msgs: Seq<ChannelMsg>, k: int)
    requires
        0 <= k < msgs.len(),
        msgs[k] is ExitStatus,
        forall|i: int| k < i < msgs.len() ==> !(#[trigger] msgs[i] is ExitStatus),
    ensures
        status_of(msgs) == Some(msgs[k]->exit_status),
    decreases msgs.len(),
{
    if k < msgs.len() - 1 {
        lemma_last_status_wins(msgs.drop_last(), k);
    }
}

} // verus!
