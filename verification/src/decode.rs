use vstd::prelude::*;
use vstd::utf8::{decode_utf8, encode_utf8, encode_utf8_decode_utf8, valid_utf8};

use crate::raw::{
    spec_decode, spec_decode_list, text_wf, lemma_text_wf_decodes, Decoding, ListDecoding,
    RawReply, TAG_ARRAY, TAG_ERROR, TAG_INTEGER, TAG_NIL, TAG_STATUS, TAG_STRING,
};
use crate::reply::{models_of, Reply, ReplyError, ReplyModel};

verus! {

broadcast use vstd::std_specs::vec::group_vec_axioms, vstd::seq::group_seq_axioms;

/// Relies on `String::from_utf8`: it succeeds exactly on bytes that are
/// valid UTF-8, and the string it returns then holds exactly the given
/// bytes.
#[verifier::external_body]
fn bytes_into_string(v: &Vec<u8>) -> (r: Option<String>)
    ensures
        r is Some <==> valid_utf8(v@),
        r matches Some(s) ==> encode_utf8(s@) == v@,
{
    String::from_utf8(v.clone()).ok()
}

/// Copies the text field out and validates it, returning the decoded
/// characters of the bytes on success.
fn text_of(v: &Vec<u8>) -> (r: Option<String>)
    ensures
        r is Some <==> valid_utf8(v@),
        r matches Some(s) ==> s@ == decode_utf8(v@),
{
    let r = bytes_into_string(v);
    proof {
        if r is Some {
            encode_utf8_decode_utf8(r->Some_0@);
        }
    }
    r
}

/// Prepends already-decoded values to the outcome of the remaining
/// children: a failure swallows them, as decoding aborts on the first
/// failing child.
spec fn with_values(ms: Seq<ReplyModel>, d: ListDecoding) -> ListDecoding {
    match d {
        ListDecoding::Values(rest) => ListDecoding::Values(ms + rest),
        e => e,
    }
}

/// Unfolds `spec_decode_list` one child at a time, from the front.
proof fn lemma_decode_list_step(s: Seq<RawReply>, i: int)
    requires
        0 <= i < s.len(),
    ensures
        spec_decode_list(s.skip(i)) == (match spec_decode(s[i]) {
            Decoding::Value(m) => with_values(seq![m], spec_decode_list(s.skip(i + 1))),
            Decoding::Failed(e) => ListDecoding::Failed(e),
            Decoding::BadText => ListDecoding::BadText,
        }),
{
    let t = s.skip(i);
    assert(t[0] == s[i]);
    assert(t.drop_first() =~= s.skip(i + 1));
}

/// The models of a sequence grown by one reply.
proof fn lemma_models_of_push(s: Seq<Reply>, v: Reply)
    ensures
        models_of(s.push(v)) == models_of(s) + seq![v.model()],
    decreases s,
{
    let sp = s.push(v);
    if s.len() == 0 {
        assert(sp[0] == v);
        assert(sp.drop_first() =~= Seq::<Reply>::empty());
        assert(models_of(Seq::<Reply>::empty()) == Seq::<ReplyModel>::empty());
        assert(models_of(sp) =~= models_of(s) + seq![v.model()]);
    } else {
        assert(sp[0] == s[0]);
        assert(sp.drop_first() =~= s.drop_first().push(v));
        lemma_models_of_push(s.drop_first(), v);
        assert(models_of(sp) == seq![s[0].model()] + (models_of(s.drop_first()) + seq![
            v.model(),
        ]));
        assert(models_of(sp) =~= models_of(s) + seq![v.model()]);
    }
}

/// Decodes one foreign record image completely, whatever it holds: a
/// value, the engine's own error, or an unknown tag become `Some`; a
/// status or error field that is not valid UTF-8 — which the engine
/// promises never to produce — becomes `None`.
#[verifier::loop_isolation(false)]
pub fn decode_reply_checked(raw: &RawReply) -> (r: Option<Result<Reply, ReplyError>>)
    ensures
        match spec_decode(*raw) {
            Decoding::Value(m) => r matches Some(Ok(v)) && v.model() == m,
            Decoding::Failed(e) => r matches Some(Err(f)) && f.model() == e,
            Decoding::BadText => r is None,
        },
    decreases *raw,
{
    if raw.rtype == TAG_STRING {
        Some(Ok(Reply::Data(raw.data.clone())))
    } else if raw.rtype == TAG_STATUS {
        match text_of(&raw.data) {
            Some(s) => Some(Ok(Reply::Status(s))),
            None => None,
        }
    } else if raw.rtype == TAG_ERROR {
        match text_of(&raw.data) {
            Some(s) => Some(Err(ReplyError::EngineReply(s))),
            None => None,
        }
    } else if raw.rtype == TAG_NIL {
        Some(Ok(Reply::Nil))
    } else if raw.rtype == TAG_INTEGER {
        Some(Ok(Reply::Integer(#[verifier::truncate] (raw.integer as i64))))
    } else if raw.rtype == TAG_ARRAY {
        let n = raw.elements.len();
        let mut out: Vec<Reply> = Vec::new();
        let mut i: usize = 0;
        proof {
            assert(raw.elements@.skip(0) =~= raw.elements@);
            match spec_decode_list(raw.elements@) {
                ListDecoding::Values(x) => {
                    assert(Seq::<ReplyModel>::empty() + x =~= x);
                },
                _ => {},
            }
        }
        while i < n
            invariant
                i <= n,
                n == raw.elements@.len(),
                models_of(out@).len() == i,
                spec_decode_list(raw.elements@) == with_values(
                    models_of(out@),
                    spec_decode_list(raw.elements@.skip(i as int)),
                ),
            decreases n - i,
        {
            proof {
                lemma_decode_list_step(raw.elements@, i as int);
            }
            match decode_reply_checked(&raw.elements[i]) {
                Some(Ok(v)) => {
                    proof {
                        lemma_models_of_push(out@, v);
                    }
                    let ghost prev = out@;
                    out.push(v);
                    proof {
                        match spec_decode_list(raw.elements@.skip(i as int + 1)) {
                            ListDecoding::Values(rest) => {
                                assert(models_of(prev) + (seq![v.model()] + rest) =~= (models_of(
                                    prev,
                                ) + seq![v.model()]) + rest);
                            },
                            _ => {},
                        }
                    }
                },
                Some(Err(f)) => {
                    return Some(Err(f));
                },
                None => {
                    return None;
                },
            }
            i = i + 1;
        }
        proof {
            assert(raw.elements@.skip(n as int) =~= Seq::<RawReply>::empty());
            assert(models_of(out@) + Seq::<ReplyModel>::empty() =~= models_of(out@));
        }
        Some(Ok(Reply::Array(out)))
    } else {
        Some(Err(ReplyError::UnknownTag(raw.rtype)))
    }
}

/// Decodes a record that keeps the engine's text guarantee: the result
/// is exactly what the record determines — the decoded value tree, or
/// the error the record itself reports.
pub fn decode_reply(raw: &RawReply) -> (r: Result<Reply, ReplyError>)
    requires
        text_wf(*raw),
    ensures
        match r {
            Ok(v) => spec_decode(*raw) == Decoding::Value(v.model()),
            Err(e) => spec_decode(*raw) == Decoding::Failed(e.model()),
        },
{
    proof {
        lemma_text_wf_decodes(*raw);
    }
    match decode_reply_checked(raw) {
        Some(res) => res,
        None => vstd::pervasive::unreached(),
    }
}

} // verus!

