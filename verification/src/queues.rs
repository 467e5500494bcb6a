//! Queue family selection and the queues that a context works with.
//!
//! A physical device reports a list of queue families. One family is chosen for
//! graphics work and one for transfer work:
//!
//! * graphics: the first family that advertises graphics;
//! * transfer: the last family that advertises transfer and not graphics; if
//!   there is none, the first family that does not advertise graphics; if every
//!   family advertises graphics, the graphics family itself.
//!
//! A list without a graphics family is rejected.

use vstd::prelude::*;
use crate::native::queue_flags_contain;
use ash::vk::Queue;

verus! {

/// Bit of a queue family's flag word that advertises graphics operations.
pub const QUEUE_GRAPHICS: u32 = 0x1;

/// Bit of a queue family's flag word that advertises transfer operations.
pub const QUEUE_TRANSFER: u32 = 0x4;

/// Every bit of `wanted` is set in `flags`.
pub open spec fn has_flags(flags: u32, wanted: u32) -> bool {
    flags & wanted == wanted
}

/// What selection reads of one queue family: its capability flag word.
#[derive(Clone, Copy, Debug, PartialEq, Eq)]
pub struct QueueFamily {
    pub queue_flags: u32,
}

impl QueueFamily {
    pub open spec fn graphics(self) -> bool {
        has_flags(self.queue_flags, QUEUE_GRAPHICS)
    }

    pub open spec fn transfer(self) -> bool {
        has_flags(self.queue_flags, QUEUE_TRANSFER)
    }

    /// Advertises transfer and not graphics.
    pub open spec fn dedicated_transfer(self) -> bool {
        !self.graphics() && self.transfer()
    }

    #[verifier::when_used_as_spec(graphics)]
    pub fn supports_graphics(self) -> (r: bool)
        ensures
            r == self.graphics(),
    {
        queue_flags_contain(self.queue_flags, QUEUE_GRAPHICS)
    }

    #[verifier::when_used_as_spec(transfer)]
    pub fn supports_transfer(self) -> (r: bool)
        ensures
            r == self.transfer(),
    {
        queue_flags_contain(self.queue_flags, QUEUE_TRANSFER)
    }
}

/// Some family of the list advertises graphics.
pub open spec fn has_graphics_family(families: Seq<QueueFamily>) -> bool {
    exists|i: int| 0 <= i < families.len() && (#[trigger] families[i]).graphics()
}

/// Some family of the list advertises transfer and not graphics.
pub open spec fn has_dedicated_transfer_family(families: Seq<QueueFamily>) -> bool {
    exists|i: int| 0 <= i < families.len() && (#[trigger] families[i]).dedicated_transfer()
}

/// Some family of the list does not advertise graphics.
pub open spec fn has_non_graphics_family(families: Seq<QueueFamily>) -> bool {
    exists|i: int| 0 <= i < families.len() && !(#[trigger] families[i]).graphics()
}

/// `g` is the first family that advertises graphics.
pub open spec fn is_first_graphics(families: Seq<QueueFamily>, g: int) -> bool {
    &&& 0 <= g < families.len()
    &&& families[g].graphics()
    &&& forall|j: int| 0 <= j < g ==> !(#[trigger] families[j]).graphics()
}

/// `t` is the last family that advertises transfer and not graphics.
pub open spec fn is_last_dedicated_transfer(families: Seq<QueueFamily>, t: int) -> bool {
    &&& 0 <= t < families.len()
    &&& families[t].dedicated_transfer()
    &&& forall|j: int| t < j < families.len() ==> !(#[trigger] families[j]).dedicated_transfer()
}

/// `t` is the first family that does not advertise graphics.
pub open spec fn is_first_non_graphics(families: Seq<QueueFamily>, t: int) -> bool {
    &&& 0 <= t < families.len()
    &&& !families[t].graphics()
    &&& forall|j: int| 0 <= j < t ==> (#[trigger] families[j]).graphics()
}

/// `t` is the transfer family that goes with graphics family `g`.
pub open spec fn is_transfer_choice(families: Seq<QueueFamily>, g: int, t: int) -> bool {
    if has_dedicated_transfer_family(families) {
        is_last_dedicated_transfer(families, t)
    } else if has_non_graphics_family(families) {
        is_first_non_graphics(families, t)
    } else {
        t == g
    }
}

/// `(g, t)` is the selection for `families`: graphics family and transfer family.
pub open spec fn is_selection(families: Seq<QueueFamily>, g: int, t: int) -> bool {
    is_first_graphics(families, g) && is_transfer_choice(families, g, t)
}

/// The two queue families that a logical device is created with.
#[derive(Clone, Copy, Debug, PartialEq, Eq)]
pub struct QueueFamilyIndices {
    pub graphics_index: usize,
    pub transfer_index: usize,
}

/// Why no queue families could be selected.
#[derive(Clone, Copy, Debug, PartialEq, Eq)]
pub enum QueueError {
    /// No family of the device advertises graphics.
    NoGraphicsFamily,
}

/// Selects the graphics and the transfer family from the families that a
/// physical device reports, in the order in which it reports them.
pub fn select_queue_families(families: &[QueueFamily]) -> (r: Result<QueueFamilyIndices, QueueError>)
    ensures
        r is Ok <==> has_graphics_family(families@),
        r matches Ok(s) ==> is_selection(
            families@,
            s.graphics_index as int,
            s.transfer_index as int,
        ),
        r matches Err(e) ==> e == QueueError::NoGraphicsFamily,
{
    let mut graphics_index: Option<usize> = None;
    let mut transfer_index: Option<usize> = None;
    let mut i: usize = 0;
    while i < families.len()
        invariant
            i <= families.len(),
            graphics_index matches Some(g) ==> g < i && is_first_graphics(families@, g as int),
            graphics_index is None ==> forall|j: int|
                0 <= j < i ==> !(#[trigger] families@[j]).graphics(),
            transfer_index matches Some(t) ==> {
                &&& t < i
                &&& !families@[t as int].graphics()
                &&& families@[t as int].transfer() ==> forall|j: int|
                    t < j < i ==> !(#[trigger] families@[j]).dedicated_transfer()
                &&& !families@[t as int].transfer() ==> {
                    &&& forall|j: int| 0 <= j < i ==> !(#[trigger] families@[j]).dedicated_transfer()
                    &&& forall|j: int| 0 <= j < t ==> (#[trigger] families@[j]).graphics()
                }
            },
            transfer_index is None ==> forall|j: int|
                0 <= j < i ==> (#[trigger] families@[j]).graphics(),
        decreases families.len() - i,
    {
        let family = families[i];
        if family.supports_graphics() {
            if graphics_index.is_none() {
                graphics_index = Some(i);
            }
        } else if transfer_index.is_none() || family.supports_transfer() {
            transfer_index = Some(i);
        }
        i += 1;
    }
    match graphics_index {
        None => Err(QueueError::NoGraphicsFamily),
        Some(g) => {
            let t = match transfer_index {
                Some(t) => t,
                None => g,
            };
            Ok(QueueFamilyIndices { graphics_index: g, transfer_index: t })
        },
    }
}

impl QueueFamilyIndices {
    /// One family serves both graphics and transfer.
    pub open spec fn shares_family(self) -> bool {
        self.transfer_index == self.graphics_index
    }

    /// The queues that the logical device is asked for: one queue of the
    /// graphics family, then one of the transfer family where that is another.
    pub open spec fn requests(self) -> Seq<QueueRequest> {
        if self.shares_family() {
            seq![(QueueRequest { family_index: self.graphics_index, queue_count: 1 })]
        } else {
            seq![
                (QueueRequest { family_index: self.graphics_index, queue_count: 1 }),
                (QueueRequest { family_index: self.transfer_index, queue_count: 1 }),
            ]
        }
    }

    /// Whether transfer work has a family of its own.
    pub fn has_separate_transfer(&self) -> (r: bool)
        ensures
            r == !self.shares_family(),
    {
        self.transfer_index != self.graphics_index
    }

    /// The queue requests to create the logical device with. No family is
    /// named twice.
    pub fn device_queue_requests(&self) -> (r: Vec<QueueRequest>)
        ensures
            r@ == self.requests(),
    {
        let mut requests: Vec<QueueRequest> = Vec::new();
        requests.push(QueueRequest { family_index: self.graphics_index, queue_count: 1 });
        if self.has_separate_transfer() {
            requests.push(QueueRequest { family_index: self.transfer_index, queue_count: 1 });
        }
        requests
    }
}

/// A number of queues asked of one family when the logical device is created.
#[derive(Clone, Copy, Debug, PartialEq, Eq)]
pub struct QueueRequest {
    pub family_index: usize,
    pub queue_count: u32,
}

/// The queues of a context: the two family indices and the queue handle
/// resolved for each.
#[derive(Clone, Copy, Debug, PartialEq, Eq)]
pub struct QueuesCtx {
    pub transfer_queue: Queue,
    pub graphics_queue: Queue,
    pub transfer_index: usize,
    pub graphics_index: usize,
}

impl QueuesCtx {
    /// The queues that follow from a selection and the handles the device gave.
    /// A transfer handle counts only where transfer has a family of its own;
    /// in every other case transfer work goes to the graphics queue.
    pub open spec fn resolved(
        indices: QueueFamilyIndices,
        graphics_queue: Queue,
        transfer_queue: Option<Queue>,
    ) -> QueuesCtx {
        if !indices.shares_family() && transfer_queue is Some {
            QueuesCtx {
                transfer_queue: transfer_queue->0,
                graphics_queue,
                transfer_index: indices.transfer_index,
                graphics_index: indices.graphics_index,
            }
        } else {
            QueuesCtx {
                transfer_queue: graphics_queue,
                graphics_queue,
                transfer_index: indices.graphics_index,
                graphics_index: indices.graphics_index,
            }
        }
    }

    /// Where both kinds of work use one family, they use one queue.
    pub open spec fn wf(self) -> bool {
        self.transfer_index == self.graphics_index ==> self.transfer_queue == self.graphics_queue
    }

    /// Puts the selected families together with the queue handles obtained
    /// from the logical device. `transfer_queue` is the handle fetched for the
    /// transfer family, or `None` where none was fetched.
    pub fn new(
        indices: QueueFamilyIndices,
        graphics_queue: Queue,
        transfer_queue: Option<Queue>,
    ) -> (r: Self)
        ensures
            r == Self::resolved(indices, graphics_queue, transfer_queue),
            r.wf(),
    {
        match transfer_queue {
            Some(queue) if indices.has_separate_transfer() => QueuesCtx {
                transfer_queue: queue,
                graphics_queue,
                transfer_index: indices.transfer_index,
                graphics_index: indices.graphics_index,
            },
            _ => QueuesCtx {
                transfer_queue: graphics_queue,
                graphics_queue,
                transfer_index: indices.graphics_index,
                graphics_index: indices.graphics_index,
            },
        }
    }
}

/// Finds the first graphics family at or before a known one.
proof fn first_graphics_upto(families: Seq<QueueFamily>, i: int) -> (g: int)
    requires
        0 <= i < families.len(),
        families[i].graphics(),
    ensures
        is_first_graphics(families, g),
        g <= i,
    decreases i,
{
    if exists|j: int| 0 <= j < i && (#[trigger] families[j]).graphics() {
        let j = choose|j: int| 0 <= j < i && (#[trigger] families[j]).graphics();
        first_graphics_upto(families, j)
    } else {
        i
    }
}

/// Finds the first non-graphics family at or before a known one.
proof fn first_non_graphics_upto(families: Seq<QueueFamily>, i: int) -> (t: int)
    requires
        0 <= i < families.len(),
        !families[i].graphics(),
    ensures
        is_first_non_graphics(families, t),
        t <= i,
    decreases i,
{
    if exists|j: int| 0 <= j < i && !(#[trigger] families[j]).graphics() {
        let j = choose|j: int| 0 <= j < i && !(#[trigger] families[j]).graphics();
        first_non_graphics_upto(families, j)
    } else {
        i
    }
}

/// Finds the last dedicated transfer family at or after a known one.
proof fn last_dedicated_transfer_from(families: Seq<QueueFamily>, i: int) -> (t: int)
    requires
        0 <= i < families.len(),
        families[i].dedicated_transfer(),
    ensures
        is_last_dedicated_transfer(families, t),
        i <= t,
    decreases families.len() - i,
{
    if exists|j: int| i < j < families.len() && (#[trigger] families[j]).dedicated_transfer() {
        let j = choose|j: int|
            i < j < families.len() && (#[trigger] families[j]).dedicated_transfer();
        last_dedicated_transfer_from(families, j)
    } else {
        i
    }
}

/// Every list with a graphics family has a selection.
pub proof fn lemma_selection_exists(families: Seq<QueueFamily>)
    requires
        has_graphics_family(families),
    ensures
        exists|g: int, t: int| is_selection(families, g, t),
{
    let i = choose|i: int| 0 <= i < families.len() && (#[trigger] families[i]).graphics();
    let g = first_graphics_upto(families, i);
    if has_dedicated_transfer_family(families) {
        let k = choose|k: int|
            0 <= k < families.len() && (#[trigger] families[k]).dedicated_transfer();
        let t = last_dedicated_transfer_from(families, k);
        assert(is_selection(families, g, t));
    } else if has_non_graphics_family(families) {
        let k = choose|k: int| 0 <= k < families.len() && !(#[trigger] families[k]).graphics();
        let t = first_non_graphics_upto(families, k);
        assert(is_selection(families, g, t));
    } else {
        assert(is_selection(families, g, g));
    }
}

/// No list has two selections.
pub proof fn lemma_selection_unique(
    families: Seq<QueueFamily>,
    g1: int,
    t1: int,
    g2: int,
    t2: int,
)
    requires
        is_selection(families, g1, t1),
        is_selection(families, g2, t2),
    ensures
        g1 == g2,
        t1 == t2,
{
    if g1 < g2 {
        assert(!families[g1].graphics());
    } else if g2 < g1 {
        assert(!families[g2].graphics());
    }
    if t1 < t2 {
        assert(families[t1].graphics() == families[t2].graphics());
    } else if t2 < t1 {
        assert(families[t1].graphics() == families[t2].graphics());
    }
}

/// Where some family advertises graphics, the selected graphics family
/// advertises graphics and is the first to do so; where only one family
/// advertises graphics, it is the one selected.
pub proof fn lemma_graphics_family_selected(families: Seq<QueueFamily>, i: int, g: int, t: int)
    requires
        0 <= i < families.len(),
        families[i].graphics(),
        is_selection(families, g, t),
    ensures
        families[g].graphics(),
        g <= i,
        (forall|j: int| 0 <= j < families.len() && j != i ==> !(#[trigger] families[j]).graphics())
            ==> g == i,
{
}

/// Where some family advertises transfer and not graphics, the selected
/// transfer family is such a family, the last of them, and so it is not the
/// graphics family; where only one family is of that kind, it is the one
/// selected.
pub proof fn lemma_dedicated_transfer_preferred(
    families: Seq<QueueFamily>,
    i: int,
    g: int,
    t: int,
)
    requires
        0 <= i < families.len(),
        families[i].dedicated_transfer(),
        is_selection(families, g, t),
    ensures
        families[t].dedicated_transfer(),
        t != g,
        i <= t,
        (forall|j: int|
            0 <= j < families.len() && j != i ==> !(#[trigger] families[j]).dedicated_transfer())
            ==> t == i,
{
}

/// Where no family advertises transfer without graphics, transfer falls back
/// to the first family that does not advertise graphics, and where every
/// family advertises graphics, to the graphics family.
pub proof fn lemma_transfer_fallback(families: Seq<QueueFamily>, g: int, t: int)
    requires
        !has_dedicated_transfer_family(families),
        is_selection(families, g, t),
    ensures
        has_non_graphics_family(families) ==> is_first_non_graphics(families, t) && t != g,
        !has_non_graphics_family(families) ==> t == g,
{
}

/// A device with a single family, one that advertises graphics, uses that
/// family for graphics and transfer alike, and both kinds of work share one
/// queue handle, whatever handle was fetched for transfer.
pub proof fn lemma_single_family_shares_queue(
    families: Seq<QueueFamily>,
    g: int,
    t: int,
    graphics_queue: Queue,
    transfer_queue: Option<Queue>,
)
    requires
        families.len() == 1,
        families[0].graphics(),
        is_selection(families, g, t),
    ensures
        g == 0,
        t == 0,
        QueuesCtx::resolved(
            (QueueFamilyIndices { graphics_index: 0, transfer_index: 0 }),
            graphics_queue,
            transfer_queue,
        ) == (QueuesCtx {
            transfer_queue: graphics_queue,
            graphics_queue,
            transfer_index: 0,
            graphics_index: 0,
        }),
{
}

/// The empty list has no graphics family and no selection.
pub proof fn lemma_empty_list_rejected()
    ensures
        !has_graphics_family(Seq::<QueueFamily>::empty()),
        forall|g: int, t: int| !#[trigger] is_selection(Seq::<QueueFamily>::empty(), g, t),
{
}

} // verus!
