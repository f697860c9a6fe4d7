use crate::queue_family::QueueFamilyIndices;
use vstd::prelude::*;

verus! {

/// Whether `name` is one of `names`.
pub open spec fn name_listed(names: Seq<Vec<u8>>, name: Seq<u8>) -> bool {
    exists|j: int| 0 <= j < names.len() && (#[trigger] names[j])@ == name
}

/// Whether every name of `required` is one of `supported`.
pub open spec fn all_listed(required: Seq<Vec<u8>>, supported: Seq<Vec<u8>>) -> bool {
    forall|i: int| 0 <= i < required.len() ==> name_listed(supported, (#[trigger] required[i])@)
}

fn names_equal(a: &Vec<u8>, b: &Vec<u8>) -> (r: bool)
    ensures
        r == (a@ == b@),
{
    if a.len() != b.len() {
        return false;
    }
    let mut i: usize = 0;
    while i < a.len()
        invariant
            a@.len() == b@.len(),
            i <= a@.len(),
            forall|j: int| 0 <= j < i ==> a@[j] == b@[j],
        decreases a@.len() - i,
    {
        if a[i] != b[i] {
            return false;
        }
        i = i + 1;
    }
    assert(a@ =~= b@);
    true
}

fn is_listed(names: &Vec<Vec<u8>>, name: &Vec<u8>) -> (r: bool)
    ensures
        r == name_listed(names@, name@),
{
    let mut j: usize = 0;
    while j < names.len()
        invariant
            j <= names@.len(),
            forall|k: int| 0 <= k < j ==> (#[trigger] names@[k])@ != name@,
        decreases names@.len() - j,
    {
        if names_equal(&names[j], name) {
            return true;
        }
        j = j + 1;
    }
    false
}

/// Whether a device offers every extension in `required_extensions`, given
/// the names of the extensions it supports. The same check serves the
/// instance layers.
pub fn check_device_extension_support(
    required_extensions: &Vec<Vec<u8>>,
    supported_extensions: &Vec<Vec<u8>>,
) -> (r: bool)
    ensures
        r == all_listed(required_extensions@, supported_extensions@),
{
    let mut i: usize = 0;
    while i < required_extensions.len()
        invariant
            i <= required_extensions@.len(),
            forall|k: int|
                0 <= k < i ==> name_listed(
                    supported_extensions@,
                    (#[trigger] required_extensions@[k])@,
                ),
        decreases required_extensions@.len() - i,
    {
        if !is_listed(supported_extensions, &required_extensions[i]) {
            return false;
        }
        i = i + 1;
    }
    true
}

/// What is known of a physical device when one is chosen.
#[derive(Clone, Copy, PartialEq, Eq, Structural, Debug)]
pub struct DeviceCandidate {
    pub is_discrete: bool,
    pub has_extension_support: bool,
    pub queue_families: QueueFamilyIndices,
}

/// A device that can serve: it has a graphics queue family and every
/// required extension.
pub open spec fn suitable(c: DeviceCandidate) -> bool {
    c.has_extension_support && c.queue_families.graphics_family is Some
}

/// Ranking of a device, lower is better: discrete devices first.
pub open spec fn suitability_spec(c: DeviceCandidate) -> int {
    (if c.is_discrete { -5int } else { 0int }) + (if suitable(c) { -1int } else { 0int })
}

/// The rank of a device, lower is better.
pub fn get_suitability(c: &DeviceCandidate) -> (r: i8)
    ensures
        r == suitability_spec(*c),
{
    let mut suitability: i8 = 0;
    if c.is_discrete {
        suitability = suitability - 5;
    }
    if c.has_extension_support && c.queue_families.graphics_family.is_some() {
        suitability = suitability - 1;
    }
    suitability
}

/// Chooses among the devices found: the first of the best rank among the
/// suitable ones, or none where no device is suitable.
pub fn get_physical_device(candidates: &Vec<DeviceCandidate>) -> (r: Option<usize>)
    ensures
        r is None <==> forall|j: int| 0 <= j < candidates@.len() ==> !suitable(#[trigger] candidates@[j]),
        r matches Some(i) ==> {
            &&& i < candidates@.len()
            &&& suitable(candidates@[i as int])
            &&& forall|j: int|
                0 <= j < candidates@.len() && suitable(#[trigger] candidates@[j])
                    ==> suitability_spec(candidates@[i as int]) <= suitability_spec(candidates@[j])
            &&& forall|j: int|
                0 <= j < i && suitable(#[trigger] candidates@[j]) ==> suitability_spec(
                    candidates@[i as int],
                ) < suitability_spec(candidates@[j])
        },
{
    let mut best: Option<usize> = None;
    let mut best_rank: i8 = 0;
    let mut i: usize = 0;
    while i < candidates.len()
        invariant
            i <= candidates@.len(),
            best is None ==> forall|j: int| 0 <= j < i ==> !suitable(#[trigger] candidates@[j]),
            best matches Some(b) ==> {
                &&& b < i
                &&& suitable(candidates@[b as int])
                &&& best_rank == suitability_spec(candidates@[b as int])
                &&& forall|j: int|
                    0 <= j < i && suitable(#[trigger] candidates@[j]) ==> best_rank
                        <= suitability_spec(candidates@[j])
                &&& forall|j: int|
                    0 <= j < b && suitable(#[trigger] candidates@[j]) ==> best_rank
                        < suitability_spec(candidates@[j])
            },
        decreases candidates@.len() - i,
    {
        let c = &candidates[i];
        if c.has_extension_support && c.queue_families.graphics_family.is_some() {
            let rank = get_suitability(c);
            match best {
                None => {
                    best = Some(i);
                    best_rank = rank;
                },
                Some(_) => {
                    if rank < best_rank {
                        best = Some(i);
                        best_rank = rank;
                    }
                },
            }
        }
        i = i + 1;
    }
    best
}

/// Whether memory type `index` is allowed by the bit mask `type_bits` and
/// has every property of `required_flags`.
pub open spec fn memory_type_fits(
    type_bits: u32,
    required_flags: u32,
    memory_type_flags: Seq<u32>,
    index: int,
) -> bool {
    &&& (type_bits >> (index as u32)) & 1 == 1
    &&& memory_type_flags[index] & required_flags == required_flags
}

/// The first memory type allowed by `type_bits` whose properties include
/// `required_flags`, given the property flags of each memory type of the
/// device, in order.
pub fn get_memory_type_index(
    type_bits: u32,
    required_flags: u32,
    memory_type_flags: &Vec<u32>,
) -> (r: Option<u32>)
    requires
        memory_type_flags@.len() <= 32,
    ensures
        r is None <==> forall|j: int|
            0 <= j < memory_type_flags@.len() ==> !#[trigger] memory_type_fits(
                type_bits,
                required_flags,
                memory_type_flags@,
                j,
            ),
        r matches Some(i) ==> {
            &&& i < memory_type_flags@.len()
            &&& memory_type_fits(type_bits, required_flags, memory_type_flags@, i as int)
            &&& forall|j: int|
                0 <= j < i ==> !#[trigger] memory_type_fits(
                    type_bits,
                    required_flags,
                    memory_type_flags@,
                    j,
                )
        },
{
    let mut index: usize = 0;
    while index < memory_type_flags.len()
        invariant
            index <= memory_type_flags@.len() <= 32,
            forall|j: int|
                0 <= j < index ==> !#[trigger] memory_type_fits(
                    type_bits,
                    required_flags,
                    memory_type_flags@,
                    j,
                ),
        decreases memory_type_flags@.len() - index,
    {
        let bit = index as u32;
        if (type_bits >> bit) & 1 == 1 && memory_type_flags[index] & required_flags
            == required_flags {
            assert(memory_type_fits(type_bits, required_flags, memory_type_flags@, index as int));
            return Some(bit);
        }
        index = index + 1;
    }
    None
}

} // verus!
