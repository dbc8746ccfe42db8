use vstd::prelude::*;
use vstd::utf8::{decode_utf8, valid_utf8};

use crate::reply::{ReplyErrorModel, ReplyModel};

verus! {

broadcast use vstd::std_specs::vec::group_vec_axioms, vstd::seq::group_seq_axioms;

/// Tag values the engine puts on a reply record.
pub const TAG_STRING: i32 = 1;

pub const TAG_ARRAY: i32 = 2;

pub const TAG_INTEGER: i32 = 3;

pub const TAG_NIL: i32 = 4;

pub const TAG_STATUS: i32 = 5;

pub const TAG_ERROR: i32 = 6;

/// An owned image of one foreign reply record: the tag, the embedded
/// integer, the bytes behind the string-like tags, and the children of
/// the array tag. Every byte is copied out of foreign memory before a
/// value of this type is built, so decoding never touches a foreign
/// pointer.
#[derive(Debug, PartialEq)]
pub struct RawReply {
    pub rtype: i32,
    pub integer: u64,
    pub data: Vec<u8>,
    pub elements: Vec<RawReply>,
}

/// The outcome one record determines: a decoded value, an error the
/// engine reported, or status/error text that is not valid UTF-8 — the
/// latter an engine-contract violation, kept apart from the typed
/// errors.
pub enum Decoding {
    Value(ReplyModel),
    Failed(ReplyErrorModel),
    BadText,
}

/// The outcome a sequence of child records determines.
pub enum ListDecoding {
    Values(Seq<ReplyModel>),
    Failed(ReplyErrorModel),
    BadText,
}

/// What decoding one record yields: the string tag copies the bytes,
/// the status tag additionally validates them as UTF-8, the error tag
/// short-circuits with the message, the integer tag reinterprets the
/// embedded field as signed, and the array tag decodes the children in
/// order. Any other tag is an unrecognized-reply error.
pub open spec fn spec_decode(r: RawReply) -> Decoding
    decreases r,
{
    if r.rtype == TAG_STRING {
        Decoding::Value(ReplyModel::Data(r.data@))
    } else if r.rtype == TAG_STATUS {
        if valid_utf8(r.data@) {
            Decoding::Value(ReplyModel::Status(decode_utf8(r.data@)))
        } else {
            Decoding::BadText
        }
    } else if r.rtype == TAG_ERROR {
        if valid_utf8(r.data@) {
            Decoding::Failed(ReplyErrorModel::EngineReply(decode_utf8(r.data@)))
        } else {
            Decoding::BadText
        }
    } else if r.rtype == TAG_NIL {
        Decoding::Value(ReplyModel::Nil)
    } else if r.rtype == TAG_INTEGER {
        Decoding::Value(ReplyModel::Integer(r.integer as i64))
    } else if r.rtype == TAG_ARRAY {
        match spec_decode_list(r.elements@) {
            ListDecoding::Values(ms) => Decoding::Value(ReplyModel::Array(ms)),
            ListDecoding::Failed(e) => Decoding::Failed(e),
            ListDecoding::BadText => Decoding::BadText,
        }
    } else {
        Decoding::Failed(ReplyErrorModel::UnknownTag(r.rtype))
    }
}

/// Children decode left to right; the first failure aborts and
/// propagates without decoding the remaining siblings, otherwise the
/// values are collected in wire order.
pub open spec fn spec_decode_list(s: Seq<RawReply>) -> ListDecoding
    decreases s,
{
    if s.len() == 0 {
        ListDecoding::Values(Seq::empty())
    } else {
        match spec_decode(s[0]) {
            Decoding::Value(m) => match spec_decode_list(s.drop_first()) {
                ListDecoding::Values(ms) => ListDecoding::Values(seq![m] + ms),
                e => e,
            },
            Decoding::Failed(e) => ListDecoding::Failed(e),
            Decoding::BadText => ListDecoding::BadText,
        }
    }
}

/// An array reply preserves child order exactly as produced by the
/// engine: when every child decodes to a value, the array decodes to
/// precisely those values, in wire order.
pub proof fn lemma_array_order(r: RawReply)
    requires
        r.rtype == TAG_ARRAY,
        forall|i: int|
            0 <= i < r.elements@.len() ==> (#[trigger] spec_decode(r.elements@[i])) is Value,
    ensures
        spec_decode(r) == Decoding::Value(
            ReplyModel::Array(
                Seq::new(r.elements@.len(), |i: int| spec_decode(r.elements@[i])->Value_0),
            ),
        ),
{
    lemma_list_values_in_order(r.elements@);
}

proof fn lemma_list_values_in_order(s: Seq<RawReply>)
    requires
        forall|i: int| 0 <= i < s.len() ==> (#[trigger] spec_decode(s[i])) is Value,
    ensures
        spec_decode_list(s) == ListDecoding::Values(
            Seq::new(s.len(), |i: int| spec_decode(s[i])->Value_0),
        ),
    decreases s,
{
    let vals = Seq::new(s.len(), |i: int| spec_decode(s[i])->Value_0);
    if s.len() == 0 {
        assert(vals =~= Seq::<ReplyModel>::empty());
    } else {
        lemma_list_values_in_order(s.drop_first());
        let tail = Seq::new(
            s.drop_first().len(),
            |i: int| spec_decode(s.drop_first()[i])->Value_0,
        );
        assert(seq![spec_decode(s[0])->Value_0] + tail =~= vals);
    }
}

/// The engine's text guarantee, stated of a whole record tree: every
/// status or error field holds valid UTF-8.
pub open spec fn text_wf(r: RawReply) -> bool
    decreases r,
{
    if r.rtype == TAG_STATUS || r.rtype == TAG_ERROR {
        valid_utf8(r.data@)
    } else if r.rtype == TAG_ARRAY {
        forall|i: int| 0 <= i < r.elements@.len() ==> text_wf(#[trigger] r.elements@[i])
    } else {
        true
    }
}

/// A record that keeps the engine's text guarantee never decodes to the
/// bad-text outcome.
pub proof fn lemma_text_wf_decodes(r: RawReply)
    requires
        text_wf(r),
    ensures
        !(spec_decode(r) is BadText),
    decreases r,
{
    if r.rtype == TAG_ARRAY {
        lemma_text_wf_decodes_list(r.elements@);
    }
}

proof fn lemma_text_wf_decodes_list(s: Seq<RawReply>)
    requires
        forall|i: int| 0 <= i < s.len() ==> text_wf(#[trigger] s[i]),
    ensures
        !(spec_decode_list(s) is BadText),
    decreases s,
{
    if s.len() != 0 {
        lemma_text_wf_decodes(s[0]);
        lemma_text_wf_decodes_list(s.drop_first());
    }
}

} // verus!
