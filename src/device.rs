use vstd::prelude::*;

use crate::error::GfxError;

verus! {

/// Whether a queue family with capability bits `flags` has every bit of `required`.
pub open spec fn has_capabilities(flags: u32, required: u32) -> bool {
    flags & required == required
}

/// Index of the first queue family whose capability bits include every bit
/// of `required`, or `NoCapableQueueFamily` when there is none.
pub fn select_queue_family(families: &Vec<u32>, required: u32) -> (r: Result<u32, GfxError>)
    requires
        families@.len() <= u32::MAX,
    ensures
        r is Ok <==> exists|i: int| 0 <= i < families@.len() && has_capabilities(families@[i], required),
        r is Ok ==> {
            let i = r->Ok_0 as int;
            &&& 0 <= i < families@.len()
            &&& has_capabilities(families@[i], required)
            &&& forall|j: int| 0 <= j < i ==> !has_capabilities(families@[j], required)
        },
        r is Err ==> r->Err_0 == GfxError::NoCapableQueueFamily,
{
    let mut i: usize = 0;
    while i < families.len()
        invariant
            i <= families@.len() <= u32::MAX,
            forall|j: int| 0 <= j < i ==> !has_capabilities(families@[j], required),
        decreases families@.len() - i,
    {
        if families[i] & required == required {
            return Ok(i as u32);
        }
        i = i + 1;
    }
    Err(GfxError::NoCapableQueueFamily)
}

/// The kind of a physical device.
#[derive(Clone, Copy, Debug, PartialEq, Eq, Structural)]
pub enum DeviceKind {
    Other,
    IntegratedGpu,
    DiscreteGpu,
    VirtualGpu,
    Cpu,
    /// A kind this library does not know, by its raw value.
    Unknown(i32),
}

/// How much a device of each kind is preferred: discrete over integrated
/// over virtual over CPU over anything else.
pub open spec fn kind_score(kind: DeviceKind) -> u32 {
    match kind {
        DeviceKind::DiscreteGpu => 100,
        DeviceKind::IntegratedGpu => 75,
        DeviceKind::VirtualGpu => 50,
        DeviceKind::Cpu => 25,
        DeviceKind::Other => 10,
        DeviceKind::Unknown(_) => 1,
    }
}

/// The preference score of a device kind.
pub fn device_score(kind: DeviceKind) -> (r: u32)
    ensures
        r == kind_score(kind),
{
    match kind {
        DeviceKind::DiscreteGpu => 100,
        DeviceKind::IntegratedGpu => 75,
        DeviceKind::VirtualGpu => 50,
        DeviceKind::Cpu => 25,
        DeviceKind::Other => 10,
        DeviceKind::Unknown(_) => 1,
    }
}

/// Index of the best-scoring device; among devices of equal score the last
/// one listed. `None` when no device is listed.
pub fn choose_physical_device(kinds: &Vec<DeviceKind>) -> (r: Option<usize>)
    ensures
        r is None <==> kinds@.len() == 0,
        r is Some ==> {
            let i = r->Some_0 as int;
            &&& 0 <= i < kinds@.len()
            &&& forall|j: int| 0 <= j < kinds@.len() ==> kind_score(kinds@[j]) <= kind_score(kinds@[i])
            &&& forall|j: int| i < j < kinds@.len() ==> kind_score(kinds@[j]) < kind_score(kinds@[i])
        },
{
    if kinds.len() == 0 {
        return None;
    }
    let mut best: usize = 0;
    let mut best_score = device_score(kinds[0]);
    let mut i: usize = 1;
    while i < kinds.len()
        invariant
            1 <= i <= kinds@.len(),
            best < i,
            best_score == kind_score(kinds@[best as int]),
            forall|j: int| 0 <= j < i ==> kind_score(kinds@[j]) <= best_score,
            forall|j: int| best < j < i ==> kind_score(kinds@[j]) < best_score,
        decreases kinds@.len() - i,
    {
        let score = device_score(kinds[i]);
        if score >= best_score {
            best = i;
            best_score = score;
        }
        i = i + 1;
    }
    Some(best)
}

/// The device features the pipeline relies on.
#[derive(Clone, Copy, Debug, PartialEq, Eq, Structural)]
pub struct DeviceFeatures {
    pub synchronization2: bool,
    pub dynamic_rendering: bool,
    pub buffer_device_address: bool,
    pub descriptor_indexing: bool,
}

impl DeviceFeatures {
    /// Every feature the pipeline enables is present.
    pub open spec fn complete(self) -> bool {
        self.synchronization2 && self.dynamic_rendering && self.buffer_device_address
            && self.descriptor_indexing
    }
}

/// What the device context is built from.
#[derive(Clone, Copy, Debug, PartialEq, Eq, Structural)]
pub struct DevicePlan {
    /// The queue family of the single execution queue.
    pub queue_family: u32,
}

/// Decides how the device context is built: the first queue family that
/// has the `required` capability bits, on a device that offers every
/// feature the pipeline enables. There is no degraded fallback.
pub fn plan_device(families: &Vec<u32>, required: u32, features: &DeviceFeatures) -> (r: Result<
    DevicePlan,
    GfxError,
>)
    requires
        families@.len() <= u32::MAX,
    ensures
        r is Ok <==> (exists|i: int|
            0 <= i < families@.len() && has_capabilities(families@[i], required))
            && features.complete(),
        r is Ok ==> {
            let i = r->Ok_0.queue_family as int;
            &&& 0 <= i < families@.len()
            &&& has_capabilities(families@[i], required)
            &&& forall|j: int| 0 <= j < i ==> !has_capabilities(families@[j], required)
        },
        r is Err ==> (r->Err_0 == GfxError::NoCapableQueueFamily <==> !exists|i: int|
            0 <= i < families@.len() && has_capabilities(families@[i], required)),
        r is Err ==> (r->Err_0 == GfxError::NoCapableQueueFamily || r->Err_0
            == GfxError::UnsupportedDevice),
{
    let queue_family = match select_queue_family(families, required) {
        Ok(i) => i,
        Err(e) => return Err(e),
    };
    if features.synchronization2 && features.dynamic_rendering && features.buffer_device_address
        && features.descriptor_indexing {
        Ok(DevicePlan { queue_family })
    } else {
        Err(GfxError::UnsupportedDevice)
    }
}

} // verus!
