//! The context: the native objects it owns and the order in which they come
//! and go.
//!
//! A context owns an instance, a validation messenger and a logical device.
//! They are created in that order and destroyed in the opposite order: the
//! device before the messenger, the messenger before the instance. `Ctx` keeps
//! the record and decides what is created or destroyed next; the caller makes
//! the native call.

use vstd::prelude::*;
use vstd::string::StringSliceAdditionalSpecFns;
use ash::vk::PhysicalDevice;
use crate::queues::QueuesCtx;

verus! {

/// A native object that a context owns and has to destroy.
#[derive(Clone, Copy, Debug, PartialEq, Eq, Structural)]
pub enum Resource {
    Instance,
    DebugMessenger,
    Device,
}

/// The order in which a context creates what it owns.
pub open spec fn creation_order() -> Seq<Resource> {
    seq![Resource::Instance, Resource::DebugMessenger, Resource::Device]
}

/// What is created next when `live` exists already, oldest first.
pub open spec fn next_in_order(live: Seq<Resource>) -> Option<Resource> {
    if live.len() < creation_order().len() {
        Some(creation_order()[live.len() as int])
    } else {
        None
    }
}

/// Why a step of bringing up a context was refused.
#[derive(Clone, Copy, Debug, PartialEq, Eq)]
pub enum CtxError {
    /// The resource reported as created is not the one that was due.
    OutOfOrder,
    /// The instance knows of no physical device.
    NoPhysicalDevice,
    /// The name at this position holds a zero byte, so it cannot be handed over
    /// as a C string.
    NulInName { index: usize },
}

/// The record of what a context owns at the moment.
#[derive(Debug)]
pub struct Ctx {
    /// How many resources exist: the first so many of the creation order.
    created: u8,
}

impl View for Ctx {
    type V = Seq<Resource>;

    /// What exists, oldest first.
    closed spec fn view(&self) -> Seq<Resource> {
        creation_order().take(self.created as int)
    }
}

/// The resource at a position of the creation order.
fn resource_at(position: u8) -> (r: Resource)
    requires
        position < creation_order().len(),
    ensures
        r == creation_order()[position as int],
{
    if position == 0 {
        Resource::Instance
    } else if position == 1 {
        Resource::DebugMessenger
    } else {
        Resource::Device
    }
}

impl Ctx {
    #[verifier::type_invariant]
    spec fn in_range(&self) -> bool {
        self.created <= creation_order().len()
    }

    /// What exists was created in the prescribed order, with nothing left out.
    /// This holds of every record.
    pub open spec fn wf(&self) -> bool {
        &&& self@.len() <= creation_order().len()
        &&& self@ =~= creation_order().take(self@.len() as int)
    }

    /// A context that owns nothing yet.
    pub fn new() -> (r: Self)
        ensures
            r@ == Seq::<Resource>::empty(),
            r.wf(),
    {
        Ctx { created: 0 }
    }

    /// What has to be created next, or `None` once the context is complete.
    pub fn next_to_create(&self) -> (r: Option<Resource>)
        ensures
            r == next_in_order(self@),
            self.wf(),
    {
        proof {
            use_type_invariant(self);
        }
        if self.created < 3 {
            Some(resource_at(self.created))
        } else {
            None
        }
    }

    /// Whether everything the context owns exists.
    pub fn is_complete(&self) -> (r: bool)
        ensures
            r <==> self@ == creation_order(),
            self.wf(),
    {
        proof {
            use_type_invariant(self);
            assert(creation_order().take(3) =~= creation_order());
        }
        self.created == 3
    }

    /// Records that `resource` now exists. Only the resource that is due next
    /// is accepted; any other leaves the record as it was.
    pub fn created(&mut self, resource: Resource) -> (r: Result<(), CtxError>)
        ensures
            old(self).wf(),
            final(self).wf(),
            r is Ok <==> next_in_order(old(self)@) == Some(resource),
            r is Ok ==> final(self)@ == old(self)@.push(resource),
            r is Err ==> r == Err::<(), CtxError>(CtxError::OutOfOrder) && final(self)@ == old(
                self,
            )@,
    {
        proof {
            use_type_invariant(&*self);
        }
        let accepted = match self.next_to_create() {
            Some(due) => due == resource,
            None => false,
        };
        if accepted {
            self.created = self.created + 1;
            assert(self@ =~= old(self)@.push(resource));
            Ok(())
        } else {
            Err(CtxError::OutOfOrder)
        }
    }

    /// Takes the youngest resource off the record: the one to destroy next.
    /// `None` when nothing is left.
    pub fn release(&mut self) -> (r: Option<Resource>)
        ensures
            old(self).wf(),
            final(self).wf(),
            old(self)@.len() == 0 ==> r is None && final(self)@ == old(self)@,
            old(self)@.len() > 0 ==> r == Some(old(self)@.last()) && final(self)@ == old(
                self,
            )@.drop_last(),
    {
        proof {
            use_type_invariant(&*self);
        }
        if self.created == 0 {
            None
        } else {
            self.created = self.created - 1;
            assert(self@ =~= old(self)@.drop_last());
            Some(resource_at(self.created))
        }
    }

    /// Empties the record and returns everything that existed in the order in
    /// which it has to be destroyed: youngest first.
    pub fn teardown(&mut self) -> (r: Vec<Resource>)
        ensures
            old(self).wf(),
            r@ == old(self)@.reverse(),
            final(self)@ == Seq::<Resource>::empty(),
    {
        proof {
            use_type_invariant(&*self);
        }
        let mut order: Vec<Resource> = Vec::new();
        loop
            invariant
                self.wf(),
                self@.len() + order@.len() == old(self)@.len(),
                self@ == old(self)@.take(self@.len() as int),
                forall|k: int|
                    0 <= k < order@.len() ==> order@[k] == old(self)@[old(self)@.len() - 1 - k],
            ensures
                self@.len() == 0,
            decreases self@.len(),
        {
            match self.release() {
                Some(resource) => order.push(resource),
                None => break ,
            }
        }
        assert(order@ =~= old(self)@.reverse());
        order
    }
}

/// A complete context is torn down device first, then the messenger, then the
/// instance.
pub proof fn lemma_teardown_order()
    ensures
        creation_order().reverse() == seq![
            Resource::Device,
            Resource::DebugMessenger,
            Resource::Instance,
        ],
{
    assert(creation_order().reverse() =~= seq![
        Resource::Device,
        Resource::DebugMessenger,
        Resource::Instance,
    ]);
}

/// Of two resources that exist, the one created later is destroyed earlier.
pub proof fn lemma_teardown_reverses_creation(live: Seq<Resource>, i: int, j: int)
    requires
        0 <= i < j < live.len(),
    ensures
        live.reverse()[live.len() - 1 - j] == live[j],
        live.reverse()[live.len() - 1 - i] == live[i],
        live.len() - 1 - j < live.len() - 1 - i,
{
}

/// Picks the physical device to run on: the first that the instance lists.
pub fn first_physical_device(devices: &[PhysicalDevice]) -> (r: Result<PhysicalDevice, CtxError>)
    ensures
        devices@.len() == 0 ==> r == Err::<PhysicalDevice, CtxError>(CtxError::NoPhysicalDevice),
        devices@.len() > 0 ==> r == Ok::<PhysicalDevice, CtxError>(devices@[0]),
{
    if devices.len() == 0 {
        Err(CtxError::NoPhysicalDevice)
    } else {
        Ok(devices[0])
    }
}

/// The name holds a zero byte.
pub open spec fn has_nul(name: Seq<u8>) -> bool {
    exists|k: int| 0 <= k < name.len() && name[k] == 0
}

/// `index` is the first name of the list that holds a zero byte.
pub open spec fn is_first_nul_name(names: Seq<&str>, index: int) -> bool {
    &&& 0 <= index < names.len()
    &&& has_nul(names[index].spec_bytes())
    &&& forall|k: int| 0 <= k < index ==> !has_nul(#[trigger] names[k].spec_bytes())
}

/// Whether a name can be handed over as a C string.
pub fn name_has_nul(name: &str) -> (r: bool)
    ensures
        r == has_nul(name.spec_bytes()),
{
    let bytes = name.as_bytes();
    let mut k: usize = 0;
    while k < bytes.len()
        invariant
            k <= bytes.len(),
            bytes@ == name.spec_bytes(),
            forall|m: int| 0 <= m < k ==> bytes@[m] != 0,
        decreases bytes.len() - k,
    {
        if bytes[k] == 0 {
            return true;
        }
        k += 1;
    }
    false
}

/// Checks the layer or extension names that an instance is created with. The
/// list is accepted when no name holds a zero byte; otherwise the first such
/// name is reported.
pub fn check_names(names: &[&str]) -> (r: Result<(), CtxError>)
    ensures
        r is Ok <==> forall|k: int| 0 <= k < names@.len() ==> !has_nul(#[trigger] names@[k].spec_bytes()),
        r matches Err(e) ==> e matches CtxError::NulInName { index } && is_first_nul_name(
            names@,
            index as int,
        ),
{
    let mut i: usize = 0;
    while i < names.len()
        invariant
            i <= names.len(),
            forall|k: int| 0 <= k < i ==> !has_nul(#[trigger] names@[k].spec_bytes()),
        decreases names.len() - i,
    {
        if name_has_nul(names[i]) {
            return Err(CtxError::NulInName { index: i });
        }
        i += 1;
    }
    Ok(())
}

/// The settings of the command pool of a context.
#[derive(Clone, Copy, Debug, PartialEq, Eq)]
pub struct CommandPoolConfig {
    pub queue_family_index: usize,
    pub flags: u32,
}

/// The command pool of a context serves the transfer family and is created
/// without flags.
pub fn command_pool_config(queues: &QueuesCtx) -> (r: CommandPoolConfig)
    ensures
        r == (CommandPoolConfig { queue_family_index: queues.transfer_index, flags: 0 }),
{
    CommandPoolConfig { queue_family_index: queues.transfer_index, flags: 0 }
}

} // verus!
