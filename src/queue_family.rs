use vstd::prelude::*;

verus! {

/// Queue flag: the family supports graphics work.
pub const QUEUE_GRAPHICS: u32 = 0x1;

/// Whether a queue family with flags `flags` supports graphics work.
pub open spec fn has_graphics(flags: u32) -> bool {
    flags & QUEUE_GRAPHICS == QUEUE_GRAPHICS
}

/// The queue families chosen on a physical device.
#[derive(Clone, Copy, PartialEq, Eq, Structural, Debug)]
pub struct QueueFamilyIndices {
    pub graphics_family: Option<u32>,
    pub present_family: Option<u32>,
}

impl QueueFamilyIndices {
    /// Picks the first queue family that supports graphics work, for both
    /// graphics and presentation. Where no family supports graphics work,
    /// none is picked for graphics, and presentation falls to the last family.
    pub fn find_queue_families(queue_flags: &Vec<u32>) -> (r: QueueFamilyIndices)
        requires
            queue_flags@.len() <= u32::MAX,
        ensures
            r.graphics_family matches Some(g) ==> {
                &&& g < queue_flags@.len()
                &&& has_graphics(queue_flags@[g as int])
                &&& forall|j: int| 0 <= j < g ==> !has_graphics(#[trigger] queue_flags@[j])
                &&& r.present_family == Some(g)
            },
            r.graphics_family is None ==> {
                &&& forall|j: int|
                    0 <= j < queue_flags@.len() ==> !has_graphics(#[trigger] queue_flags@[j])
                &&& r.present_family == if queue_flags@.len() == 0 {
                    None
                } else {
                    Some((queue_flags@.len() - 1) as u32)
                }
            },
    {
        let mut indices = QueueFamilyIndices { graphics_family: None, present_family: None };
        let mut i: usize = 0;
        while i < queue_flags.len()
            invariant
                i <= queue_flags@.len() <= u32::MAX,
                indices.graphics_family is None,
                forall|j: int| 0 <= j < i ==> !has_graphics(#[trigger] queue_flags@[j]),
                indices.present_family == if i == 0 {
                    None
                } else {
                    Some((i - 1) as u32)
                },
            decreases queue_flags@.len() - i,
        {
            let index = i as u32;
            if queue_flags[i] & QUEUE_GRAPHICS == QUEUE_GRAPHICS {
                indices.graphics_family = Some(index);
            }
            indices.present_family = Some(index);
            if indices.is_complete() {
                return indices;
            }
            i = i + 1;
        }
        indices
    }

    /// Both a graphics and a presentation family were found.
    pub fn is_complete(&self) -> (r: bool)
        ensures
            r == (self.graphics_family is Some && self.present_family is Some),
    {
        self.graphics_family.is_some() && self.present_family.is_some()
    }

    /// Both families were found and they are the same one.
    pub fn are_same(&self) -> (r: bool)
        ensures
            r == (self.graphics_family is Some && self.present_family is Some
                && self.graphics_family == self.present_family),
    {
        match (self.graphics_family, self.present_family) {
            (Some(g), Some(p)) => g == p,
            _ => false,
        }
    }
}

} // verus!
