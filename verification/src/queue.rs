//! Choice of the queue families for graphics and transfer work, and the
//! queues requested from them.

use vstd::prelude::*;
use crate::driver;
use crate::device::SelectionError;

verus! {

/// What the driver reports about one queue family: its capability flags and
/// how many queues it offers. Its index is its position in the enumeration.
#[derive(Clone, Copy, Debug, PartialEq, Eq, Structural)]
pub struct QueueFamily {
    pub flags: u32,
    pub count: u32,
}

impl QueueFamily {
    /// The graphics capability bit is set.
    pub open spec fn graphics(self) -> bool {
        self.flags & driver::GRAPHICS_BIT == driver::GRAPHICS_BIT
    }

    /// The transfer capability bit is set.
    pub open spec fn transfer(self) -> bool {
        self.flags & driver::TRANSFER_BIT == driver::TRANSFER_BIT
    }

    /// The family has at least one queue and supports graphics.
    pub open spec fn offers_graphics(self) -> bool {
        self.count > 0 && self.graphics()
    }

    /// The family has at least one queue and supports transfers.
    pub open spec fn offers_transfer(self) -> bool {
        self.count > 0 && self.transfer()
    }

    /// The family has at least one queue and supports transfers but not
    /// graphics.
    pub open spec fn dedicated_transfer(self) -> bool {
        self.offers_transfer() && !self.graphics()
    }

    /// A family with the given raw capability flags and queue count.
    pub fn new(flags: u32, count: u32) -> (r: QueueFamily)
        ensures
            r == (QueueFamily { flags, count }),
    {
        QueueFamily { flags, count }
    }

    /// A family that has exactly the named capabilities among graphics and
    /// transfer, and no other flag.
    pub fn from_capabilities(graphics: bool, transfer: bool, count: u32) -> (r: QueueFamily)
        ensures
            r.count == count,
            r.graphics() == graphics,
            r.transfer() == transfer,
            r.flags == (if graphics { driver::GRAPHICS_BIT } else { 0u32 })
                + (if transfer { driver::TRANSFER_BIT } else { 0u32 }),
    {
        let g: u32 = if graphics { driver::graphics_bit() } else { 0 };
        let t: u32 = if transfer { driver::transfer_bit() } else { 0 };
        proof {
            assert(0u32 & 1u32 != 1u32 && 1u32 & 1u32 == 1u32 && 4u32 & 1u32 != 1u32 && 5u32 & 1u32
                == 1u32) by (bit_vector);
            assert(0u32 & 4u32 != 4u32 && 1u32 & 4u32 != 4u32 && 4u32 & 4u32 == 4u32 && 5u32 & 4u32
                == 4u32) by (bit_vector);
        }
        QueueFamily { flags: g + t, count }
    }

    /// Whether the graphics capability bit is set.
    pub fn has_graphics(&self) -> (r: bool)
        ensures
            r == self.graphics(),
    {
        driver::flags_contain(self.flags, driver::graphics_bit())
    }

    /// Whether the transfer capability bit is set.
    pub fn has_transfer(&self) -> (r: bool)
        ensures
            r == self.transfer(),
    {
        driver::flags_contain(self.flags, driver::transfer_bit())
    }
}

/// The families chosen for graphics and for transfer work. They may coincide.
#[derive(Clone, Copy, Debug, PartialEq, Eq, Structural)]
pub struct QueueSelection {
    pub graphics: u32,
    pub transfer: u32,
}

/// Whether `k` is the graphics choice among the first `n` families: the last
/// one that offers graphics.
pub open spec fn graphics_choice_within(families: Seq<QueueFamily>, n: int, k: int) -> bool {
    &&& 0 <= k < n <= families.len()
    &&& families[k].offers_graphics()
    &&& forall|j: int| k < j < n ==> !(#[trigger] families[j]).offers_graphics()
}

/// Whether `k` is the transfer choice among the first `n` families: the last
/// dedicated transfer family if there is one, otherwise the first family that
/// offers transfers at all.
pub open spec fn transfer_choice_within(families: Seq<QueueFamily>, n: int, k: int) -> bool {
    &&& 0 <= k < n <= families.len()
    &&& families[k].offers_transfer()
    &&& if families[k].graphics() {
        &&& forall|j: int| 0 <= j < n ==> !(#[trigger] families[j]).dedicated_transfer()
        &&& forall|j: int| 0 <= j < k ==> !(#[trigger] families[j]).offers_transfer()
    } else {
        forall|j: int| k < j < n ==> !(#[trigger] families[j]).dedicated_transfer()
    }
}

/// Whether some family offers graphics.
pub open spec fn has_graphics_family(families: Seq<QueueFamily>) -> bool {
    exists|j: int| 0 <= j < families.len() && (#[trigger] families[j]).offers_graphics()
}

/// Whether some family offers transfers.
pub open spec fn has_transfer_family(families: Seq<QueueFamily>) -> bool {
    exists|j: int| 0 <= j < families.len() && (#[trigger] families[j]).offers_transfer()
}

/// Whether `selection` is what the policy picks from `families`.
pub open spec fn is_queue_choice(families: Seq<QueueFamily>, selection: QueueSelection) -> bool {
    &&& graphics_choice_within(families, families.len() as int, selection.graphics as int)
    &&& transfer_choice_within(families, families.len() as int, selection.transfer as int)
}

/// Picks the graphics and the transfer family from the families of the chosen
/// device, in enumeration order. Families without queues are ignored. The
/// last family that offers graphics serves graphics. Transfers go to the last
/// family that offers them without graphics; if there is none, to the first
/// family that offers them.
pub fn select_queue_families(families: &Vec<QueueFamily>) -> (r: Result<
    QueueSelection,
    SelectionError,
>)
    requires
        families@.len() <= u32::MAX,
    ensures
        r.is_ok() <==> has_graphics_family(families@) && has_transfer_family(families@),
        match r {
            Ok(selection) => is_queue_choice(families@, selection),
            Err(e) => e == (if has_graphics_family(families@) {
                SelectionError::NoTransferQueue
            } else {
                SelectionError::NoGraphicsQueue
            }),
        },
{
    let mut graphics: Option<u32> = None;
    let mut transfer: Option<u32> = None;
    let mut i: usize = 0;
    while i < families.len()
        invariant
            i <= families.len() <= u32::MAX,
            match graphics {
                Some(k) => graphics_choice_within(families@, i as int, k as int),
                None => forall|j: int| 0 <= j < i ==> !(#[trigger] families@[j]).offers_graphics(),
            },
            match transfer {
                Some(k) => transfer_choice_within(families@, i as int, k as int),
                None => forall|j: int| 0 <= j < i ==> !(#[trigger] families@[j]).offers_transfer(),
            },
        decreases families.len() - i,
    {
        let family = families[i];
        if family.count > 0 {
            let with_graphics = family.has_graphics();
            if with_graphics {
                graphics = Some(i as u32);
            }
            if family.has_transfer() && (transfer.is_none() || !with_graphics) {
                transfer = Some(i as u32);
            }
        }
        i += 1;
    }
    match graphics {
        None => Err(SelectionError::NoGraphicsQueue),
        Some(g) => match transfer {
            None => Err(SelectionError::NoTransferQueue),
            Some(t) => Ok(QueueSelection { graphics: g, transfer: t }),
        },
    }
}

/// The policy picks at most one selection from a list of families: the
/// contract of [`select_queue_families`] leaves no freedom in the result.
pub proof fn lemma_queue_choice_unique(
    families: Seq<QueueFamily>,
    a: QueueSelection,
    b: QueueSelection,
)
    requires
        is_queue_choice(families, a),
        is_queue_choice(families, b),
    ensures
        a == b,
{
}

/// A family without queues is never chosen, whatever its capability flags.
pub proof fn lemma_chosen_families_have_queues(
    families: Seq<QueueFamily>,
    selection: QueueSelection,
)
    requires
        is_queue_choice(families, selection),
    ensures
        families[selection.graphics as int].count > 0,
        families[selection.transfer as int].count > 0,
{
}

/// A dedicated transfer family, where one exists, is preferred over every
/// family that combines transfers with graphics.
pub proof fn lemma_dedicated_transfer_preferred(
    families: Seq<QueueFamily>,
    selection: QueueSelection,
    d: int,
)
    requires
        is_queue_choice(families, selection),
        0 <= d < families.len(),
        families[d].dedicated_transfer(),
    ensures
        families[selection.transfer as int].dedicated_transfer(),
        d <= selection.transfer,
{
}

/// A request for queues of one family at device creation.
#[derive(Clone, Copy, Debug, PartialEq, Eq, Structural)]
pub struct QueueRequest {
    pub family: u32,
    pub queue_count: u32,
}

/// Names one queue of a created device: a family and a position within it.
#[derive(Clone, Copy, Debug, PartialEq, Eq, Structural)]
pub struct QueueSlot {
    pub family: u32,
    pub index: u32,
}

/// The requests made for a selection: one queue from the graphics family,
/// then one queue from the transfer family, also where the two coincide.
pub open spec fn requests_for(selection: QueueSelection) -> Seq<QueueRequest> {
    seq![
        QueueRequest { family: selection.graphics, queue_count: 1 },
        QueueRequest { family: selection.transfer, queue_count: 1 },
    ]
}

/// The queues fetched for a selection: the first queue of the graphics
/// family, then the first queue of the transfer family.
pub open spec fn slots_for(selection: QueueSelection) -> Seq<QueueSlot> {
    seq![
        QueueSlot { family: selection.graphics, index: 0 },
        QueueSlot { family: selection.transfer, index: 0 },
    ]
}

/// Whether a request names an existing family and asks for at least one
/// queue and no more than the family has.
pub open spec fn request_fits(families: Seq<QueueFamily>, request: QueueRequest) -> bool {
    &&& request.family < families.len()
    &&& 1 <= request.queue_count <= families[request.family as int].count
}

/// Whether every request of a list fits the families.
pub open spec fn all_requests_fit(families: Seq<QueueFamily>, requests: Seq<QueueRequest>) -> bool {
    forall|i: int| 0 <= i < requests.len() ==> request_fits(families, #[trigger] requests[i])
}

/// The queue requests to create the logical device with.
pub fn queue_requests(selection: &QueueSelection) -> (r: Vec<QueueRequest>)
    ensures
        r@ == requests_for(*selection),
{
    let mut requests: Vec<QueueRequest> = Vec::new();
    requests.push(QueueRequest { family: selection.graphics, queue_count: 1 });
    requests.push(QueueRequest { family: selection.transfer, queue_count: 1 });
    assert(requests@ =~= requests_for(*selection));
    requests
}

/// The queues to fetch from the created device.
pub fn queue_slots(selection: &QueueSelection) -> (r: Vec<QueueSlot>)
    ensures
        r@ == slots_for(*selection),
{
    let mut slots: Vec<QueueSlot> = Vec::new();
    slots.push(QueueSlot { family: selection.graphics, index: 0 });
    slots.push(QueueSlot { family: selection.transfer, index: 0 });
    assert(slots@ =~= slots_for(*selection));
    slots
}

/// Guards device creation: tells whether every request names an existing
/// family and stays within the number of queues that family has.
pub fn requests_fit(families: &Vec<QueueFamily>, requests: &Vec<QueueRequest>) -> (r: bool)
    ensures
        r == all_requests_fit(families@, requests@),
{
    let mut i: usize = 0;
    while i < requests.len()
        invariant
            i <= requests.len(),
            forall|j: int| 0 <= j < i ==> request_fits(families@, #[trigger] requests@[j]),
        decreases requests.len() - i,
    {
        let request = requests[i];
        let family = request.family as usize;
        if family >= families.len() || request.queue_count < 1 || request.queue_count
            > families[family].count {
            return false;
        }
        i += 1;
    }
    true
}

/// The requests made for a selection that the policy picked always fit the
/// families, and each fetched queue exists.
pub proof fn lemma_chosen_requests_fit(families: Seq<QueueFamily>, selection: QueueSelection)
    requires
        is_queue_choice(families, selection),
    ensures
        all_requests_fit(families, requests_for(selection)),
        forall|i: int|
            0 <= i < slots_for(selection).len() ==> {
                let slot = #[trigger] slots_for(selection)[i];
                slot.family < families.len() && slot.index < families[slot.family as int].count
            },
{
}

} // verus!
