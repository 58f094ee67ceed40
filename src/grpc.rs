//! The store's batch-create call: decoding a request, and encoding the
//! reply; and the hub's side, encoding a batch as a request.
use vstd::prelude::*;

use crate::domain::ProcessedAgent;
use crate::model::ProcessedAgentId;
use crate::proto::{
    normalized, processed_error, processed_proto, Input, InvalidProcessedAgentDataError,
    ProcessedAgentDataId,
};

verus! {

/// Decodes every record of a request, stopping at the first that fails its
/// checks.
pub fn decode_input(input: &Input) -> (r: Result<Vec<ProcessedAgent>, InvalidProcessedAgentDataError>)
    ensures
        r is Ok <==> forall|i: int|
            0 <= i < input.data@.len() ==> (#[trigger] processed_error(input.data@[i])) is None,
        r matches Ok(v) ==> v@.len() == input.data@.len() && forall|i: int|
            0 <= i < v@.len() ==> processed_proto(#[trigger] v@[i]) == normalized(input.data@[i]),
        r matches Err(e) ==> exists|i: int|
            0 <= i < input.data@.len() && processed_error(#[trigger] input.data@[i]) == Some(e)
                && forall|j: int| 0 <= j < i ==> (#[trigger] processed_error(input.data@[j])) is None,
{
    let mut out: Vec<ProcessedAgent> = Vec::new();
    let mut i: usize = 0;
    while i < input.data.len()
        invariant
            0 <= i <= input.data@.len(),
            out@.len() == i,
            forall|j: int| 0 <= j < i ==> (#[trigger] processed_error(input.data@[j])) is None,
            forall|j: int|
                0 <= j < i ==> processed_proto(#[trigger] out@[j]) == normalized(input.data@[j]),
        decreases input.data@.len() - i,
    {
        match ProcessedAgent::from_proto(input.data[i]) {
            Ok(record) => out.push(record),
            Err(e) => {
                return Err(e);
            },
        }
        i = i + 1;
    }
    Ok(out)
}

/// The reply that lists the identifiers, in order.
pub fn ids_reply(ids: &Vec<ProcessedAgentId>) -> (r: ProcessedAgentDataId)
    ensures
        r.ids@ == ids@.map_values(|id: ProcessedAgentId| id.0),
{
    let mut out: Vec<i32> = Vec::new();
    let mut i: usize = 0;
    while i < ids.len()
        invariant
            0 <= i <= ids@.len(),
            out@ == ids@.take(i as int).map_values(|id: ProcessedAgentId| id.0),
        decreases ids@.len() - i,
    {
        out.push(ids[i].0);
        i = i + 1;
        proof {
            assert(out@ =~= ids@.take(i as int).map_values(|id: ProcessedAgentId| id.0));
        }
    }
    proof {
        assert(ids@.take(ids@.len() as int) =~= ids@);
    }
    ProcessedAgentDataId { ids: out }
}

/// The request that carries a batch, in order.
pub fn batch_input(batch: &Vec<ProcessedAgent>) -> (r: Input)
    ensures
        r.data@ == batch@.map_values(|p: ProcessedAgent| processed_proto(p)),
{
    let mut data = Vec::new();
    let mut i: usize = 0;
    while i < batch.len()
        invariant
            0 <= i <= batch@.len(),
            data@ == batch@.take(i as int).map_values(|p: ProcessedAgent| processed_proto(p)),
        decreases batch@.len() - i,
    {
        data.push(batch[i].to_proto());
        i = i + 1;
        proof {
            assert(data@ =~= batch@.take(i as int).map_values(
                |p: ProcessedAgent| processed_proto(p),
            ));
        }
    }
    proof {
        assert(batch@.take(batch@.len() as int) =~= batch@);
    }
    Input { data }
}

} // verus!
