//! Delivered signals, and how a supervisor reads a batch of them: the
//! child-exit kind is information about a process that ended, every other
//! kind is passed on to the supervised child.

use vstd::prelude::*;

verus! {

/// One delivered signal: its kind, and the process that caused it where the
/// platform reports one (for the child-exit kind, the child that ended).
#[derive(Clone, Copy, Debug, PartialEq, Eq)]
pub struct SignalEvent {
    pub signal: i32,
    pub process: Option<i32>,
}

impl SignalEvent {
    /// The signal is of the child-exit kind and names `pid` as its origin.
    /// A negative origin names no process.
    pub open spec fn reports_exit_of(self, exit_signal: i32, pid: u32) -> bool {
        &&& self.signal == exit_signal
        &&& self.process matches Some(origin)
        &&& origin == pid
    }

    /// Whether this signal tells that the process `pid` has exited.
    pub fn is_exit_of(&self, exit_signal: i32, pid: u32) -> (found: bool)
        ensures
            found == self.reports_exit_of(exit_signal, pid),
    {
        if self.signal != exit_signal {
            return false;
        }
        match self.process {
            Some(origin) => origin >= 0 && origin as u32 == pid,
            None => false,
        }
    }
}

/// Some signal of the batch reports the exit of the process `pid`.
pub open spec fn exit_reported(batch: Seq<SignalEvent>, exit_signal: i32, pid: u32) -> bool {
    exists|i: int| 0 <= i < batch.len() && (#[trigger] batch[i]).reports_exit_of(exit_signal, pid)
}

/// The kinds that a batch passes on to the supervised child: every signal
/// that is not of the child-exit kind, once each, in the order of delivery.
pub open spec fn relayed(batch: Seq<SignalEvent>, exit_signal: i32) -> Seq<i32> {
    batch.filter(|event: SignalEvent| event.signal != exit_signal).map_values(
        |event: SignalEvent| event.signal,
    )
}

/// Whether a batch reports the exit of the process `pid`.
pub fn batch_reports_exit(batch: &Vec<SignalEvent>, exit_signal: i32, pid: u32) -> (found: bool)
    ensures
        found == exit_reported(batch@, exit_signal, pid),
{
    let mut i: usize = 0;
    while i < batch.len()
        invariant
            i <= batch.len(),
            forall|j: int| 0 <= j < i ==> !(#[trigger] batch@[j]).reports_exit_of(exit_signal, pid),
        decreases batch.len() - i,
    {
        if batch[i].is_exit_of(exit_signal, pid) {
            return true;
        }
        i += 1;
    }
    false
}

/// The signal kinds of a batch that are to be forwarded.
pub fn relay(batch: &Vec<SignalEvent>, exit_signal: i32) -> (kinds: Vec<i32>)
    ensures
        kinds@ == relayed(batch@, exit_signal),
{
    let mut kinds: Vec<i32> = Vec::new();
    let mut i: usize = 0;
    proof {
        lemma_relayed_empty(exit_signal);
    }
    while i < batch.len()
        invariant
            i <= batch.len(),
            kinds@ == relayed(batch@.take(i as int), exit_signal),
        decreases batch.len() - i,
    {
        proof {
            lemma_relayed_push(batch@.take(i as int), batch@[i as int], exit_signal);
            assert(batch@.take(i as int).push(batch@[i as int]) =~= batch@.take(i + 1));
        }
        if batch[i].signal != exit_signal {
            kinds.push(batch[i].signal);
        }
        i += 1;
    }
    proof {
        assert(batch@.take(i as int) =~= batch@);
    }
    kinds
}

/// An empty batch passes nothing on.
pub proof fn lemma_relayed_empty(exit_signal: i32)
    ensures
        relayed(Seq::<SignalEvent>::empty(), exit_signal) == Seq::<i32>::empty(),
{
    reveal(Seq::filter);
}

/// A batch with one more signal passes on what it did before, followed by the
/// new signal's kind unless that is the child-exit kind.
pub proof fn lemma_relayed_push(batch: Seq<SignalEvent>, event: SignalEvent, exit_signal: i32)
    ensures
        relayed(batch.push(event), exit_signal) == if event.signal != exit_signal {
            relayed(batch, exit_signal).push(event.signal)
        } else {
            relayed(batch, exit_signal)
        },
{
    reveal(Seq::filter);
    assert(batch.push(event).drop_last() =~= batch);
    if event.signal != exit_signal {
        assert(relayed(batch.push(event), exit_signal) =~= relayed(batch, exit_signal).push(
            event.signal,
        ));
    }
}

} // verus!
