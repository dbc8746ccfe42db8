use vstd::prelude::*;

verus! {

broadcast use vstd::std_specs::vec::group_vec_axioms, vstd::seq::group_seq_axioms;

/// The length half of the argument-vector representation the engine's
/// submission entry point expects: the parallel array of each
/// argument's byte length. The pointer half exists only at the foreign
/// boundary and is built there from the same arguments, valid for the
/// duration of one submission call.
pub fn encode_lengths(command: &Vec<Vec<u8>>) -> (r: Vec<usize>)
    ensures
        r@.len() == command@.len(),
        forall|i: int| 0 <= i < command@.len() ==> r@[i] == command@[i]@.len(),
{
    let mut r: Vec<usize> = Vec::new();
    let mut i: usize = 0;
    while i < command.len()
        invariant
            i <= command@.len(),
            r@.len() == i,
            forall|j: int| 0 <= j < i ==> r@[j] == command@[j]@.len(),
        decreases command@.len() - i,
    {
        r.push(command[i].len());
        i = i + 1;
    }
    r
}

/// Reads the engine's answer to a submission: status zero means the
/// command was enqueued; any other status is a rejection, which
/// invalidates neither the connection nor previously queued replies.
pub fn submit_outcome(status: i32) -> (r: Result<(), ()>)
    ensures
        r is Ok <==> status == 0,
{
    if status == 0 {
        Ok(())
    } else {
        Err(())
    }
}

} // verus!
