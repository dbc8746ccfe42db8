use vstd::prelude::*;

use crate::decode::decode_reply_checked;
use crate::raw::{lemma_text_wf_decodes, spec_decode, text_wf, Decoding, RawReply};
use crate::reply::{Reply, ReplyError, ReplyErrorModel, ReplyModel};

verus! {

broadcast use vstd::std_specs::vec::group_vec_axioms, vstd::seq::group_seq_axioms;

/// What one fetch yields, decided from what the engine handed back: a
/// non-zero status is a retrieval failure, no pending record yields
/// `Nil`, and a record decodes on its own.
pub open spec fn spec_fetch(status: i32, record: Option<RawReply>) -> Decoding {
    if status != 0 {
        Decoding::Failed(ReplyErrorModel::FetchFailed)
    } else {
        match record {
            Option::None => Decoding::Value(ReplyModel::Nil),
            Option::Some(r) => spec_decode(r),
        }
    }
}

/// Interprets one reply retrieval completely, whatever the engine
/// handed back; `None` stands for status or error text that is not
/// valid UTF-8, which an engine that keeps its text guarantee never
/// produces.
pub fn interpret_fetch_checked(status: i32, record: Option<RawReply>) -> (r: Option<
    Result<Reply, ReplyError>,
>)
    ensures
        match spec_fetch(status, record) {
            Decoding::Value(m) => r matches Some(Ok(v)) && v.model() == m,
            Decoding::Failed(e) => r matches Some(Err(f)) && f.model() == e,
            Decoding::BadText => r is None,
        },
{
    if status != 0 {
        Some(Err(ReplyError::FetchFailed))
    } else {
        match record {
            Option::None => Some(Ok(Reply::Nil)),
            Option::Some(raw) => decode_reply_checked(&raw),
        }
    }
}

/// Interprets one reply retrieval from an engine that keeps its text
/// guarantee: the result is exactly what the retrieval determines.
pub fn interpret_fetch(status: i32, record: Option<RawReply>) -> (r: Result<Reply, ReplyError>)
    requires
        record matches Some(rr) ==> text_wf(rr),
    ensures
        match r {
            Ok(v) => spec_fetch(status, record) == Decoding::Value(v.model()),
            Err(e) => spec_fetch(status, record) == Decoding::Failed(e.model()),
        },
{
    proof {
        match &record {
            Option::Some(rr) => lemma_text_wf_decodes(*rr),
            Option::None => (),
        }
    }
    match interpret_fetch_checked(status, record) {
        Some(res) => res,
        None => vstd::pervasive::unreached(),
    }
}

/// The engine's reply queue, as the pipelining discipline sees it:
/// submitting a command appends the record its reply will carry, and
/// fetching pops the oldest, or yields nothing when none is pending.
pub struct EngineQueue {
    pub pending: Seq<RawReply>,
}

impl EngineQueue {
    /// A fresh connection has no pending reply.
    pub open spec fn init() -> Self {
        EngineQueue { pending: Seq::empty() }
    }

    /// Submitting a command enqueues the record of its reply.
    pub open spec fn after_submit(self, produced: RawReply) -> Self {
        EngineQueue { pending: self.pending.push(produced) }
    }

    /// The record the next fetch retrieves: the oldest pending one, or
    /// nothing — which `spec_fetch` maps to `Nil`.
    pub open spec fn fetched(self) -> Option<RawReply> {
        if self.pending.len() == 0 {
            Option::None
        } else {
            Option::Some(self.pending.first())
        }
    }

    /// The queue after one fetch.
    pub open spec fn after_fetch(self) -> Self {
        if self.pending.len() == 0 {
            self
        } else {
            EngineQueue { pending: self.pending.drop_first() }
        }
    }

    /// The queue after `k` fetches.
    pub open spec fn after_fetches(self, k: int) -> Self
        decreases k,
    {
        if k <= 0 {
            self
        } else {
            self.after_fetch().after_fetches(k - 1)
        }
    }
}

/// Pipelining is FIFO: however many commands are submitted before any
/// reply is read, the `k`-th fetch retrieves the record of the `k`-th
/// command submitted.
pub proof fn lemma_pipeline_fifo(q: EngineQueue, k: int)
    requires
        0 <= k < q.pending.len(),
    ensures
        q.after_fetches(k).fetched() == Some(q.pending[k]),
    decreases k,
{
    if k > 0 {
        lemma_pipeline_fifo(q.after_fetch(), k - 1);
    }
}

/// Submitting never reorders or disturbs the replies already pending:
/// each earlier position keeps its record, and the new record stands
/// last.
pub proof fn lemma_submit_preserves_order(q: EngineQueue, produced: RawReply)
    ensures
        q.after_submit(produced).pending.len() == q.pending.len() + 1,
        forall|i: int|
            0 <= i < q.pending.len() ==> q.after_submit(produced).pending[i] == q.pending[i],
        q.after_submit(produced).pending.last() == produced,
{
}

} // verus!
