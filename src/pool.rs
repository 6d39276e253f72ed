use vstd::prelude::*;

use crate::error::{invalid_size_message, PoolCreationError};

verus! {

/// The identifiers `0, 1, ..., size - 1` of the workers of a pool of `size`.
pub open spec fn ids_upto(size: nat) -> Seq<usize> {
    Seq::new(size, |i: int| i as usize)
}

/// Checks a requested pool size and lists the identifiers of its workers.
///
/// A size of zero is refused with the invalid-size error; any other size
/// gives exactly `size` workers, numbered in the order they are created.
pub fn worker_ids(size: usize) -> (r: Result<Vec<usize>, PoolCreationError>)
    ensures
        r is Err <==> size == 0,
        r matches Err(e) ==> e@ == invalid_size_message(),
        r matches Ok(ids) ==> ids@ == ids_upto(size as nat),
{
    if size == 0 {
        return Err(PoolCreationError::invalid_size());
    }
    let mut ids: Vec<usize> = Vec::with_capacity(size);
    let mut id: usize = 0;
    while id < size
        invariant
            id <= size,
            ids@ == ids_upto(id as nat),
        decreases size - id,
    {
        ids.push(id);
        id = id + 1;
        assert(ids@ =~= ids_upto(id as nat));
    }
    Ok(ids)
}

} // verus!
