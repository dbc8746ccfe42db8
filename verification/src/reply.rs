use vstd::prelude::*;

verus! {

broadcast use vstd::std_specs::vec::group_vec_axioms, vstd::seq::group_seq_axioms;

/// A decoded engine reply: an owned value tree, independent of any
/// foreign buffer once decoding has finished.
#[derive(Debug, PartialEq)]
pub enum Reply {
    Nil,
    Integer(i64),
    Data(Vec<u8>),
    Status(String),
    Array(Vec<Reply>),
}

/// The mathematical shape of a decoded reply, used by the contracts.
pub enum ReplyModel {
    Nil,
    Integer(i64),
    Data(Seq<u8>),
    Status(Seq<char>),
    Array(Seq<ReplyModel>),
}

impl Reply {
    /// What this reply denotes: the same tree, over sequences.
    pub open spec fn model(self) -> ReplyModel
        decreases self,
    {
        match self {
            Reply::Nil => ReplyModel::Nil,
            Reply::Integer(i) => ReplyModel::Integer(i),
            Reply::Data(d) => ReplyModel::Data(d@),
            Reply::Status(s) => ReplyModel::Status(s@),
            Reply::Array(v) => ReplyModel::Array(models_of(v@)),
        }
    }
}

impl Clone for Reply {
    /// A clone denotes the same value tree.
    #[verifier::loop_isolation(false)]
    fn clone(&self) -> (r: Self)
        ensures
            r.model() == self.model(),
        decreases *self,
    {
        match self {
            Reply::Nil => Reply::Nil,
            Reply::Integer(i) => Reply::Integer(*i),
            Reply::Data(d) => Reply::Data(d.clone()),
            Reply::Status(s) => Reply::Status(s.clone()),
            Reply::Array(v) => {
                let n = v.len();
                let mut out: Vec<Reply> = Vec::new();
                let mut i: usize = 0;
                while i < n
                    invariant
                        i <= n,
                        n == v@.len(),
                        out@.len() == i,
                        forall|j: int| 0 <= j < i ==> (#[trigger] out@[j]).model() == v@[j].model(),
                    decreases n - i,
                {
                    out.push(v[i].clone());
                    i = i + 1;
                }
                proof {
                    lemma_models_of_pointwise(out@);
                    lemma_models_of_pointwise(v@);
                    assert(models_of(out@) =~= models_of(v@));
                }
                Reply::Array(out)
            },
        }
    }
}

/// How one fetch can fail: the engine answered with an error message,
/// the record's tag matched no known variant, or the engine signalled a
/// retrieval failure before any record was produced.
#[derive(Debug, PartialEq)]
pub enum ReplyError {
    EngineReply(String),
    UnknownTag(i32),
    FetchFailed,
}

/// The mathematical shape of a fetch failure.
pub enum ReplyErrorModel {
    EngineReply(Seq<char>),
    UnknownTag(i32),
    FetchFailed,
}

impl ReplyError {
    /// What this failure denotes.
    pub open spec fn model(self) -> ReplyErrorModel {
        match self {
            ReplyError::EngineReply(s) => ReplyErrorModel::EngineReply(s@),
            ReplyError::UnknownTag(t) => ReplyErrorModel::UnknownTag(t),
            ReplyError::FetchFailed => ReplyErrorModel::FetchFailed,
        }
    }
}

/// The models of a sequence of replies, in order.
pub open spec fn models_of(s: Seq<Reply>) -> Seq<ReplyModel>
    decreases s,
{
    if s.len() == 0 {
        Seq::empty()
    } else {
        seq![s[0].model()] + models_of(s.drop_first())
    }
}

/// `models_of` keeps length and order: element `i` of the model sequence
/// is the model of element `i` of the reply sequence.
pub proof fn lemma_models_of_pointwise(s: Seq<Reply>)
    ensures
        models_of(s).len() == s.len(),
        forall|i: int| 0 <= i < s.len() ==> models_of(s)[i] == s[i].model(),
    decreases s,
{
    if s.len() != 0 {
        lemma_models_of_pointwise(s.drop_first());
    }
}

} // verus!
