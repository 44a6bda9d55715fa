//! The life of a stream, as a model.
//!
//! An opened stream owns one native connection. Each operation on it plans
//! one native call on that connection; closing plans the `pa_simple_free`
//! and gives the connection up, after which the stream plans nothing. The
//! contracts of `Reader` and `Writer` are stated over this model, and the
//! lemmas below say what holds of every sequence of operations.

use crate::low_level::{pa_simple, NativeCall};
use vstd::prelude::*;

verus! {

/// What `PendingReader` and `PendingWriter` stand for: a stream that is
/// being opened.
pub struct Opening {
    /// The `pa_simple_new` that opens the stream.
    pub call: NativeCall,
    /// The size of one sample in bytes.
    pub width: nat,
}

/// What `Reader` and `Writer` stand for: a stream that was opened.
pub struct Stream {
    /// The native connection that the stream owns, or `None` once it is
    /// closed.
    pub pa: Option<pa_simple>,
    /// The size of one sample in bytes.
    pub width: nat,
}

/// What can be asked of a stream.
pub enum Operation {
    /// Fill a buffer of `len` samples.
    Read { len: nat },
    /// Play a buffer of `len` samples.
    Write { len: nat },
    /// Ask for the latency.
    GetLatency,
    /// Wait until all that was written has been played.
    Drain,
    /// Throw away what is buffered.
    Flush,
    /// Give the connection up.
    Close,
}

impl Stream {
    /// The native call that carries out `op` on connection `pa`. A transfer
    /// of `len` samples moves `len * width` bytes.
    pub open spec fn call_on(self, pa: pa_simple, op: Operation) -> NativeCall {
        match op {
            Operation::Read { len } => NativeCall::Read { pa, bytes: (len * self.width) as usize },
            Operation::Write { len } => NativeCall::Write { pa, bytes: (len * self.width) as usize },
            Operation::GetLatency => NativeCall::GetLatency { pa },
            Operation::Drain => NativeCall::Drain { pa },
            Operation::Flush => NativeCall::Flush { pa },
            Operation::Close => NativeCall::Free { pa },
        }
    }

    /// The call that the stream plans for `op`: one on its own connection
    /// while it has one, none once it is closed.
    pub open spec fn plan(self, op: Operation) -> Option<NativeCall> {
        match self.pa {
            Some(pa) => Some(self.call_on(pa, op)),
            None => None,
        }
    }

    /// The stream after `op`: closed after `Close`, unchanged after anything
    /// else.
    pub open spec fn after(self, op: Operation) -> Stream {
        if op is Close {
            Stream { pa: None, ..self }
        } else {
            self
        }
    }

    /// The calls that the stream plans for `ops`, one operation after the
    /// other.
    pub open spec fn calls(self, ops: Seq<Operation>) -> Seq<NativeCall>
        decreases ops.len(),
    {
        if ops.len() == 0 {
            Seq::empty()
        } else {
            let rest = self.after(ops[0]).calls(ops.drop_first());
            match self.plan(ops[0]) {
                Some(call) => seq![call] + rest,
                None => rest,
            }
        }
    }
}

/// A closed stream plans no call, whatever is asked of it.
pub proof fn lemma_closed_stream_is_silent(stream: Stream, ops: Seq<Operation>)
    requires
        stream.pa is None,
    ensures
        stream.calls(ops).len() == 0,
    decreases ops.len(),
{
    if ops.len() > 0 {
        lemma_closed_stream_is_silent(stream.after(ops[0]), ops.drop_first());
    }
}

/// Every call that a stream plans acts on the stream's own connection.
pub proof fn lemma_calls_act_on_own_connection(stream: Stream, ops: Seq<Operation>, i: int)
    requires
        0 <= i < stream.calls(ops).len(),
    ensures
        stream.pa is Some,
        stream.calls(ops)[i].target() == stream.pa,
    decreases ops.len(),
{
    if stream.pa is None {
        lemma_closed_stream_is_silent(stream, ops);
    } else {
        let next = stream.after(ops[0]);
        if next.pa is None {
            lemma_closed_stream_is_silent(next, ops.drop_first());
        } else if i > 0 {
            lemma_calls_act_on_own_connection(next, ops.drop_first(), i - 1);
        }
    }
}

/// Streams on different connections are isolated: whatever is asked of the
/// two, no call that one plans acts on the connection of the other.
pub proof fn lemma_streams_are_isolated(
    a: Stream,
    ops_a: Seq<Operation>,
    i: int,
    b: Stream,
    ops_b: Seq<Operation>,
    j: int,
)
    requires
        a.pa != b.pa,
        0 <= i < a.calls(ops_a).len(),
        0 <= j < b.calls(ops_b).len(),
    ensures
        a.calls(ops_a)[i].target() != b.pa,
        b.calls(ops_b)[j].target() != a.pa,
        a.calls(ops_a)[i].target() != b.calls(ops_b)[j].target(),
{
    lemma_calls_act_on_own_connection(a, ops_a, i);
    lemma_calls_act_on_own_connection(b, ops_b, j);
}

/// A connection is never used after it was freed, nor freed twice: where a
/// stream plans a `pa_simple_free`, that is the last call it plans.
pub proof fn lemma_free_is_last(stream: Stream, ops: Seq<Operation>, i: int)
    requires
        0 <= i < stream.calls(ops).len(),
        stream.calls(ops)[i] is Free,
    ensures
        i == stream.calls(ops).len() - 1,
    decreases ops.len(),
{
    if stream.pa is None {
        lemma_closed_stream_is_silent(stream, ops);
    } else {
        let next = stream.after(ops[0]);
        if i > 0 {
            lemma_free_is_last(next, ops.drop_first(), i - 1);
        } else {
            lemma_closed_stream_is_silent(next, ops.drop_first());
        }
    }
}

/// The connection of an open stream is freed exactly when the stream is
/// closed: the `pa_simple_free` is among the planned calls if and only if
/// `Close` is among the operations.
pub proof fn lemma_freed_iff_closed(stream: Stream, ops: Seq<Operation>)
    requires
        stream.pa is Some,
    ensures
        stream.calls(ops).contains(NativeCall::Free { pa: stream.pa->0 }) <==> ops.contains(
            Operation::Close,
        ),
    decreases ops.len(),
{
    let pa = stream.pa->0;
    let free = NativeCall::Free { pa };
    let planned = stream.calls(ops);
    if ops.len() == 0 {
    } else {
        let first = stream.call_on(pa, ops[0]);
        let next = stream.after(ops[0]);
        let rest = next.calls(ops.drop_first());
        assert(planned == seq![first] + rest);
        assert(planned[0] == first);
        if ops[0] is Close {
            assert(ops[0] == Operation::Close);
        } else {
            lemma_freed_iff_closed(next, ops.drop_first());
            if rest.contains(free) {
                let k = choose|k: int| 0 <= k < rest.len() && rest[k] == free;
                assert(planned[k + 1] == free);
                let m = choose|m: int|
                    0 <= m < ops.drop_first().len() && ops.drop_first()[m] == Operation::Close;
                assert(ops[m + 1] == Operation::Close);
            }
            if planned.contains(free) {
                let k = choose|k: int| 0 <= k < planned.len() && planned[k] == free;
                assert(k > 0);
                assert(rest[k - 1] == free);
            }
            if ops.contains(Operation::Close) {
                let m = choose|m: int| 0 <= m < ops.len() && ops[m] == Operation::Close;
                assert(ops.drop_first()[m - 1] == Operation::Close);
            }
        }
    }
}

} // verus!
