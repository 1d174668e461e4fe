//! Query sets: the two numbers that are read out of them.

use vstd::prelude::*;

use crate::native::WGPUQueryType;

verus! {

/// What a query set was made with.
#[derive(Clone, Copy, Debug, PartialEq, Eq, Structural)]
pub struct QuerySetData {
    pub query_type: WGPUQueryType,
    pub query_count: u32,
}

#[derive(Clone, Copy, Debug, PartialEq, Eq, Structural)]
pub struct WGPUQuerySetImpl {
    pub data: QuerySetData,
}

/// Gives the type code of the queries; their number is what `wgpuQuerySetGetType` gives.
pub fn wgpuQuerySetGetCount(query_set: &WGPUQuerySetImpl) -> (value: u32)
    ensures
        value == query_set.data.query_type,
{
    query_set.data.query_type
}

/// Gives the number of the queries; their type code is what `wgpuQuerySetGetCount` gives.
pub fn wgpuQuerySetGetType(query_set: &WGPUQuerySetImpl) -> (value: WGPUQueryType)
    ensures
        value == query_set.data.query_count,
{
    query_set.data.query_count
}

} // verus!
