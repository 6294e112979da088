//! Queue-family bookkeeping: the indices of the queue families a device is
//! created with, and the classes of operations a queue is retrieved for.

use vstd::prelude::*;

verus! {

/// The class of operations a queue or command pool is asked for.
#[derive(Clone, Copy, Debug, PartialEq, Eq)]
pub enum VQueueType {
    Graphics,
    Compute,
    Present,
}

/// The queue-family indices selected for a physical device: one family per
/// operation class. Two classes may share a family.
#[derive(Clone, Copy, Debug, PartialEq, Eq)]
pub struct VQueueFamilyIndices {
    pub graphics: u32,
    pub compute: u32,
    pub present: u32,
}

impl VQueueFamilyIndices {
    /// True exactly when `x` is one of the three selected family indices.
    pub open spec fn is_selected(self, x: u32) -> bool {
        x == self.compute || x == self.graphics || x == self.present
    }

    /// The family index for an operation class.
    pub open spec fn spec_index_of(self, queue_type: VQueueType) -> u32 {
        match queue_type {
            VQueueType::Graphics => self.graphics,
            VQueueType::Compute => self.compute,
            VQueueType::Present => self.present,
        }
    }

    /// The family index for an operation class.
    pub fn index_of(&self, queue_type: VQueueType) -> (r: u32)
        ensures
            r == self.spec_index_of(queue_type),
    {
        match queue_type {
            VQueueType::Graphics => self.graphics,
            VQueueType::Compute => self.compute,
            VQueueType::Present => self.present,
        }
    }

    /// The selected family indices with duplicates removed: a device must
    /// name each family at most once when it is created.
    pub fn unique_indices(&self) -> (r: Vec<u32>)
        ensures
            r@.no_duplicates(),
            forall|x: u32| r@.contains(x) <==> self.is_selected(x),
            1 <= r@.len() <= 3,
    {
        let mut r: Vec<u32> = Vec::new();
        r.push(self.compute);
        if self.graphics != self.compute {
            r.push(self.graphics);
        }
        if self.present != self.compute && self.present != self.graphics {
            r.push(self.present);
        }
        proof {
            let s = r@;
            if self.graphics != self.compute {
                if self.present != self.compute && self.present != self.graphics {
                    assert(s =~= seq![self.compute, self.graphics, self.present]);
                    assert(s.contains(self.present)) by {
                        assert(s[2] == self.present);
                    }
                } else {
                    assert(s =~= seq![self.compute, self.graphics]);
                }
                assert(s.contains(self.graphics)) by {
                    assert(s[1] == self.graphics);
                }
            } else {
                if self.present != self.compute && self.present != self.graphics {
                    assert(s =~= seq![self.compute, self.present]);
                    assert(s.contains(self.present)) by {
                        assert(s[1] == self.present);
                    }
                } else {
                    assert(s =~= seq![self.compute]);
                }
            }
            assert(s.contains(self.compute)) by {
                assert(s[0] == self.compute);
            }
            assert forall|x: u32| s.contains(x) implies self.is_selected(x) by {
                let k = choose|k: int| 0 <= k < s.len() && s[k] == x;
                assert(s[k] == x);
            }
        }
        r
    }
}

} // verus!
