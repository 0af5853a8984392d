//! Queue families: which one draws, which one presents.

use vstd::prelude::*;
use crate::vulkan::flags::{flags_contain, queue_flags_contain, QUEUE_GRAPHICS};

verus! {

/// What a program reads of one queue family of a physical device.
#[derive(Clone, Copy, Debug, PartialEq, Eq, Structural)]
pub struct QueueFamily {
    /// The family's capability bits.
    pub queue_flags: u32,
    /// Whether the family can present to the surface.
    pub present_support: bool,
}

/// The queue families a program settled on.
#[derive(Clone, Copy, Debug, PartialEq, Eq, Structural)]
pub struct QueueFamilyIndices {
    /// The family that takes the drawing (or drawing and compute) work.
    pub graphics_family: Option<u32>,
    /// The family that presents to the surface.
    pub present_family: Option<u32>,
}

impl QueueFamilyIndices {
    /// Both families are known.
    pub open spec fn complete(&self) -> bool {
        self.graphics_family is Some && self.present_family is Some
    }

    /// Indices with neither family known.
    pub fn new() -> (indices: Self)
        ensures
            indices.graphics_family is None,
            indices.present_family is None,
    {
        QueueFamilyIndices { graphics_family: None, present_family: None }
    }

    /// Whether both families are known.
    pub fn is_complete(&self) -> (complete: bool)
        ensures
            complete == self.complete(),
    {
        self.graphics_family.is_some() && self.present_family.is_some()
    }

    /// Takes note of family `index`: it becomes the graphics family if it
    /// has the wanted capabilities, and the present family if it can
    /// present. What it is not leaves the earlier choice in place.
    pub fn record(&mut self, index: u32, capable: bool, present_support: bool)
        ensures
            final(self).graphics_family == if capable {
                Some(index)
            } else {
                old(self).graphics_family
            },
            final(self).present_family == if present_support {
                Some(index)
            } else {
                old(self).present_family
            },
    {
        if capable {
            self.graphics_family = Some(index);
        }
        if present_support {
            self.present_family = Some(index);
        }
    }
}

/// Among the first `n` families there is one with all the bits of `wanted`
/// and one that can present.
pub open spec fn seen_both(families: Seq<QueueFamily>, wanted: u32, n: int) -> bool {
    &&& exists|g: int| 0 <= g < n && g < families.len() && flags_contain(
        #[trigger] families[g].queue_flags,
        wanted,
    )
    &&& exists|p: int| 0 <= p < n && p < families.len() && #[trigger] families[p].present_support
}

/// `n` is the number of families a scan looks at: it stops after the first
/// family with which both kinds have been seen, or at the end of the list.
pub open spec fn is_scan_length(families: Seq<QueueFamily>, wanted: u32, n: int) -> bool {
    &&& 0 <= n <= families.len()
    &&& n == families.len() || seen_both(families, wanted, n)
    &&& forall|m: int| 0 <= m < n ==> !#[trigger] seen_both(families, wanted, m)
}

/// `found` is the last of the first `n` families with all the bits of
/// `wanted`, or `None` where there is none.
pub open spec fn is_last_capable(
    families: Seq<QueueFamily>,
    wanted: u32,
    n: int,
    found: Option<u32>,
) -> bool {
    match found {
        Some(g) => {
            &&& g < n
            &&& flags_contain(families[g as int].queue_flags, wanted)
            &&& forall|j: int| g < j < n ==> !flags_contain(#[trigger] families[j].queue_flags, wanted)
        },
        None => forall|j: int| 0 <= j < n ==> !flags_contain(#[trigger] families[j].queue_flags, wanted),
    }
}

/// `found` is the last of the first `n` families that can present, or
/// `None` where there is none.
pub open spec fn is_last_presenting(families: Seq<QueueFamily>, n: int, found: Option<u32>) -> bool {
    match found {
        Some(p) => {
            &&& p < n
            &&& families[p as int].present_support
            &&& forall|j: int| p < j < n ==> !#[trigger] families[j].present_support
        },
        None => forall|j: int| 0 <= j < n ==> !#[trigger] families[j].present_support,
    }
}

/// `indices` is what a scan of `families` for the capabilities `wanted`
/// gives: of the families it looks at, the last capable one and the last
/// presenting one.
pub open spec fn found_by_scan(
    families: Seq<QueueFamily>,
    wanted: u32,
    indices: QueueFamilyIndices,
) -> bool {
    exists|n: int|
        {
            &&& #[trigger] is_scan_length(families, wanted, n)
            &&& is_last_capable(families, wanted, n, indices.graphics_family)
            &&& is_last_presenting(families, n, indices.present_family)
        }
}

/// Goes through the queue families of a device in order, noting for each
/// whether it has all the capabilities `wanted` and whether it can present,
/// and stops as soon as both kinds have been found.
pub fn find_queue_families(families: &[QueueFamily], wanted: u32) -> (indices: QueueFamilyIndices)
    requires
        families@.len() <= u32::MAX,
    ensures
        found_by_scan(families@, wanted, indices),
{
    let mut indices = QueueFamilyIndices::new();
    let mut i: usize = 0;
    while i < families.len()
        invariant_except_break
            !seen_both(families@, wanted, i as int),
        invariant
            i <= families@.len() <= u32::MAX,
            is_last_capable(families@, wanted, i as int, indices.graphics_family),
            is_last_presenting(families@, i as int, indices.present_family),
            forall|m: int| 0 <= m < i ==> !#[trigger] seen_both(families@, wanted, m),
        ensures
            i == families@.len() || seen_both(families@, wanted, i as int),
        decreases families@.len() - i,
    {
        let family = &families[i];
        let capable = queue_flags_contain(family.queue_flags, wanted);
        indices.record(i as u32, capable, family.present_support);
        i += 1;
        if indices.is_complete() {
            break;
        }
    }
    assert(is_scan_length(families@, wanted, i as int));
    indices
}

/// `family` is the first entry of `flags` with all the bits of `wanted`.
pub open spec fn is_first_capable(flags: Seq<u32>, wanted: u32, family: int) -> bool {
    &&& 0 <= family < flags.len()
    &&& flags_contain(flags[family], wanted)
    &&& forall|j: int| 0 <= j < family ==> !flags_contain(#[trigger] flags[j], wanted)
}

/// Some entry of `flags` has all the bits of `wanted`.
pub open spec fn has_capable(flags: Seq<u32>, wanted: u32) -> bool {
    exists|j: int| 0 <= j < flags.len() && flags_contain(#[trigger] flags[j], wanted)
}

/// The first queue family, by its capability bits, that has all of `wanted`.
pub fn first_capable_family(flags: &[u32], wanted: u32) -> (family: Option<u32>)
    requires
        flags@.len() <= u32::MAX,
    ensures
        match family {
            Some(f) => is_first_capable(flags@, wanted, f as int),
            None => !has_capable(flags@, wanted),
        },
{
    let mut i: usize = 0;
    while i < flags.len()
        invariant
            i <= flags@.len() <= u32::MAX,
            forall|j: int| 0 <= j < i ==> !flags_contain(#[trigger] flags@[j], wanted),
        decreases flags@.len() - i,
    {
        if queue_flags_contain(flags[i], wanted) {
            return Some(i as u32);
        }
        i += 1;
    }
    None
}

/// The first device, in the order given, that has a queue family able to
/// draw, together with the first such family of that device. Each entry
/// of `devices` holds the capability bits of one device's families.
pub fn pick_graphics_queue(devices: &[Vec<u32>]) -> (choice: Option<(usize, u32)>)
    requires
        forall|d: int| 0 <= d < devices@.len() ==> (#[trigger] devices@[d])@.len() <= u32::MAX,
    ensures
        match choice {
            Some((device, family)) => {
                &&& device < devices@.len()
                &&& is_first_capable(devices@[device as int]@, QUEUE_GRAPHICS, family as int)
                &&& forall|d: int|
                    0 <= d < device ==> !has_capable((#[trigger] devices@[d])@, QUEUE_GRAPHICS)
            },
            None => forall|d: int|
                0 <= d < devices@.len() ==> !has_capable((#[trigger] devices@[d])@, QUEUE_GRAPHICS),
        },
{
    let mut d: usize = 0;
    while d < devices.len()
        invariant
            d <= devices@.len(),
            forall|e: int| 0 <= e < devices@.len() ==> (#[trigger] devices@[e])@.len() <= u32::MAX,
            forall|e: int| 0 <= e < d ==> !has_capable((#[trigger] devices@[e])@, QUEUE_GRAPHICS),
        decreases devices@.len() - d,
    {
        match first_capable_family(devices[d].as_slice(), QUEUE_GRAPHICS) {
            Some(family) => {
                return Some((d, family));
            },
            None => {},
        }
        d += 1;
    }
    None
}

/// The two families in rising order, once where they are the same.
pub open spec fn sorted_pair(graphics: u32, present: u32) -> Seq<u32> {
    if graphics == present {
        seq![graphics]
    } else if graphics < present {
        seq![graphics, present]
    } else {
        seq![present, graphics]
    }
}

/// The graphics family, then the present family where it is another one.
pub open spec fn distinct_pair(graphics: u32, present: u32) -> Seq<u32> {
    if graphics == present {
        seq![graphics]
    } else {
        seq![graphics, present]
    }
}

/// The families for which a logical device needs a queue, sorted and
/// without repetition.
pub fn unique_queue_families(indices: &QueueFamilyIndices) -> (families: Vec<u32>)
    requires
        indices.complete(),
    ensures
        families@ == sorted_pair(indices.graphics_family->0, indices.present_family->0),
{
    let graphics: u32 = indices.graphics_family.unwrap();
    let present: u32 = indices.present_family.unwrap();
    let mut families: Vec<u32> = Vec::new();
    if graphics == present {
        families.push(graphics);
    } else if graphics < present {
        families.push(graphics);
        families.push(present);
    } else {
        families.push(present);
        families.push(graphics);
    }
    families
}

/// The families for which a logical device needs a queue, the graphics
/// family first, without repetition.
pub fn distinct_queue_families(indices: &QueueFamilyIndices) -> (families: Vec<u32>)
    requires
        indices.complete(),
    ensures
        families@ == distinct_pair(indices.graphics_family->0, indices.present_family->0),
{
    let graphics: u32 = indices.graphics_family.unwrap();
    let present: u32 = indices.present_family.unwrap();
    let mut families: Vec<u32> = Vec::new();
    families.push(graphics);
    if present != graphics {
        families.push(present);
    }
    families
}

/// A scan looks at a definite number of families: two lengths that both
/// fit are the same.
pub proof fn scan_length_is_unique(families: Seq<QueueFamily>, wanted: u32, a: int, b: int)
    requires
        is_scan_length(families, wanted, a),
        is_scan_length(families, wanted, b),
    ensures
        a == b,
{
    if a < b {
        assert(!seen_both(families, wanted, a));
    }
    if b < a {
        assert(!seen_both(families, wanted, b));
    }
}

/// A scan has one outcome: two pairs of indices that both fit are equal.
pub proof fn scan_result_is_unique(
    families: Seq<QueueFamily>,
    wanted: u32,
    a: QueueFamilyIndices,
    b: QueueFamilyIndices,
)
    requires
        found_by_scan(families, wanted, a),
        found_by_scan(families, wanted, b),
    ensures
        a == b,
{
    let n = choose|n: int|
        {
            &&& #[trigger] is_scan_length(families, wanted, n)
            &&& is_last_capable(families, wanted, n, a.graphics_family)
            &&& is_last_presenting(families, n, a.present_family)
        };
    let m = choose|m: int|
        {
            &&& #[trigger] is_scan_length(families, wanted, m)
            &&& is_last_capable(families, wanted, m, b.graphics_family)
            &&& is_last_presenting(families, m, b.present_family)
        };
    scan_length_is_unique(families, wanted, n, m);
}

/// A scan ends with both families known exactly when the device has a
/// capable family and a presenting one.
pub proof fn scan_completes_iff_both_exist(
    families: Seq<QueueFamily>,
    wanted: u32,
    indices: QueueFamilyIndices,
)
    requires
        found_by_scan(families, wanted, indices),
    ensures
        indices.complete() <==> seen_both(families, wanted, families.len() as int),
{
    let n = choose|n: int|
        {
            &&& #[trigger] is_scan_length(families, wanted, n)
            &&& is_last_capable(families, wanted, n, indices.graphics_family)
            &&& is_last_presenting(families, n, indices.present_family)
        };
    if indices.complete() {
        let g = indices.graphics_family->0 as int;
        let p = indices.present_family->0 as int;
        assert(flags_contain(families[g].queue_flags, wanted));
        assert(families[p].present_support);
    }
    if seen_both(families, wanted, families.len() as int) {
        assert(seen_both(families, wanted, n));
    }
}

} // verus!
