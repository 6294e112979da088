//! The logical-device model: the queues and command pools a device was
//! created with, and the queue create descriptions it is created from.

use vstd::prelude::*;
use crate::queue_family::{VQueueFamilyIndices, VQueueType};

verus! {

/// The queue handles retrieved from a device, one per operation class.
/// A handle is the driver's opaque 64-bit identifier of the object.
#[derive(Clone, Copy, Debug, PartialEq, Eq)]
pub struct VQueues {
    pub graphics: u64,
    pub compute: u64,
    pub present: u64,
}

/// The command-pool handles allocated on a device, one per operation class.
#[derive(Clone, Copy, Debug, PartialEq, Eq)]
pub struct VCommandPools {
    pub graphics: u64,
    pub compute: u64,
    pub present: u64,
}

/// One entry of the queue create description a device is created from:
/// how many queues to create in one queue family.
#[derive(Clone, Copy, Debug, PartialEq, Eq)]
pub struct VDeviceQueueCreateInfo {
    pub queue_family_index: u32,
    pub queue_count: u32,
}

/// The family indices named by a queue create description, in order.
pub open spec fn family_indices(s: Seq<VDeviceQueueCreateInfo>) -> Seq<u32> {
    s.map_values(|q: VDeviceQueueCreateInfo| q.queue_family_index)
}

/// The logical device as the library sees it: the queues and command pools
/// retrieved for it, each addressed by operation class.
#[derive(Clone, Copy, Debug, PartialEq, Eq)]
pub struct VDevice {
    queues: VQueues,
    command_pools: VCommandPools,
}

impl VDevice {
    /// The queues stored for the device.
    pub closed spec fn spec_queues(self) -> VQueues {
        self.queues
    }

    /// The command pools stored for the device.
    pub closed spec fn spec_command_pools(self) -> VCommandPools {
        self.command_pools
    }

    /// Records the queues and command pools retrieved for a freshly created
    /// device.
    pub fn new(queues: VQueues, command_pools: VCommandPools) -> (r: Self)
        ensures
            r.spec_queues() == queues,
            r.spec_command_pools() == command_pools,
    {
        VDevice { queues, command_pools }
    }

    /// The queue handle stored for an operation class.
    pub open spec fn spec_queue(self, queue_type: VQueueType) -> u64 {
        match queue_type {
            VQueueType::Graphics => self.spec_queues().graphics,
            VQueueType::Compute => self.spec_queues().compute,
            VQueueType::Present => self.spec_queues().present,
        }
    }

    /// The command-pool handle stored for an operation class.
    pub open spec fn spec_command_pool(self, queue_type: VQueueType) -> u64 {
        match queue_type {
            VQueueType::Graphics => self.spec_command_pools().graphics,
            VQueueType::Compute => self.spec_command_pools().compute,
            VQueueType::Present => self.spec_command_pools().present,
        }
    }

    /// The queue for an operation class.
    pub fn get_queue(&self, queue_type: VQueueType) -> (r: u64)
        ensures
            r == self.spec_queue(queue_type),
    {
        match queue_type {
            VQueueType::Graphics => self.queues.graphics,
            VQueueType::Compute => self.queues.compute,
            VQueueType::Present => self.queues.present,
        }
    }

    /// The command pool for an operation class.
    pub fn get_command_pool(&self, queue_type: VQueueType) -> (r: u64)
        ensures
            r == self.spec_command_pool(queue_type),
    {
        match queue_type {
            VQueueType::Graphics => self.command_pools.graphics,
            VQueueType::Compute => self.command_pools.compute,
            VQueueType::Present => self.command_pools.present,
        }
    }

    /// The queue create description for a device over the selected families:
    /// one queue in each distinct family, each family named exactly once.
    pub fn device_queue_create_infos(
        queue_family_indices: VQueueFamilyIndices,
    ) -> (r: Vec<VDeviceQueueCreateInfo>)
        ensures
            family_indices(r@).no_duplicates(),
            forall|x: u32|
                family_indices(r@).contains(x) <==> queue_family_indices.is_selected(x),
            forall|i: int| 0 <= i < r@.len() ==> r@[i].queue_count == 1,
            1 <= r@.len() <= 3,
    {
        let unique = queue_family_indices.unique_indices();
        let mut r: Vec<VDeviceQueueCreateInfo> = Vec::new();
        let mut i: usize = 0;
        while i < unique.len()
            invariant
                i <= unique.len(),
                family_indices(r@) == unique@.take(i as int),
                forall|j: int| 0 <= j < r@.len() ==> r@[j].queue_count == 1,
            decreases unique.len() - i,
        {
            let queue_family_index = unique[i];
            let ghost prev = r@;
            let info = VDeviceQueueCreateInfo { queue_family_index, queue_count: 1 };
            r.push(info);
            proof {
                prev.lemma_push_map_commute(
                    (|q: VDeviceQueueCreateInfo| q.queue_family_index),
                    info,
                );
                assert(family_indices(r@) =~= unique@.take(i as int + 1));
            }
            i = i + 1;
        }
        proof {
            assert(unique@.take(unique@.len() as int) =~= unique@);
        }
        r
    }
}

} // verus!
