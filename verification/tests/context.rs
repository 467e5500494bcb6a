use ash::vk;
use ash::vk::Handle;
use vulkan_ctx::context::{
    check_names, command_pool_config, first_physical_device, name_has_nul, CommandPoolConfig, Ctx,
    CtxError, Resource,
};
use vulkan_ctx::queues::{QueueFamilyIndices, QueuesCtx};

fn complete() -> Ctx {
    let mut ctx = Ctx::new();
    assert_eq!(ctx.created(Resource::Instance), Ok(()));
    assert_eq!(ctx.created(Resource::DebugMessenger), Ok(()));
    assert_eq!(ctx.created(Resource::Device), Ok(()));
    ctx
}

#[test]
fn new_context_owns_nothing() {
    let mut ctx = Ctx::new();
    assert!(!ctx.is_complete());
    assert_eq!(ctx.next_to_create(), Some(Resource::Instance));
    assert_eq!(ctx.release(), None);
    assert_eq!(ctx.teardown(), vec![]);
}

#[test]
fn resources_are_due_in_creation_order() {
    let mut ctx = Ctx::new();
    assert_eq!(ctx.next_to_create(), Some(Resource::Instance));
    assert_eq!(ctx.created(Resource::Instance), Ok(()));
    assert_eq!(ctx.next_to_create(), Some(Resource::DebugMessenger));
    assert_eq!(ctx.created(Resource::DebugMessenger), Ok(()));
    assert_eq!(ctx.next_to_create(), Some(Resource::Device));
    assert!(!ctx.is_complete());
    assert_eq!(ctx.created(Resource::Device), Ok(()));
    assert_eq!(ctx.next_to_create(), None);
    assert!(ctx.is_complete());
}

#[test]
fn resource_out_of_order_is_refused() {
    let mut ctx = Ctx::new();
    assert_eq!(ctx.created(Resource::Device), Err(CtxError::OutOfOrder));
    assert_eq!(ctx.created(Resource::DebugMessenger), Err(CtxError::OutOfOrder));
    assert_eq!(ctx.next_to_create(), Some(Resource::Instance));
    assert_eq!(ctx.created(Resource::Instance), Ok(()));
    assert_eq!(ctx.created(Resource::Instance), Err(CtxError::OutOfOrder));
    assert_eq!(ctx.created(Resource::Device), Err(CtxError::OutOfOrder));
    assert_eq!(ctx.teardown(), vec![Resource::Instance]);
}

#[test]
fn complete_context_accepts_nothing_more() {
    let mut ctx = complete();
    assert_eq!(ctx.created(Resource::Instance), Err(CtxError::OutOfOrder));
    assert_eq!(ctx.created(Resource::Device), Err(CtxError::OutOfOrder));
    assert!(ctx.is_complete());
}

#[test]
fn teardown_destroys_device_then_messenger_then_instance() {
    let mut ctx = complete();
    assert_eq!(
        ctx.teardown(),
        vec![Resource::Device, Resource::DebugMessenger, Resource::Instance]
    );
    assert_eq!(ctx.next_to_create(), Some(Resource::Instance));
    assert_eq!(ctx.teardown(), vec![]);
}

#[test]
fn partial_context_is_torn_down_in_reverse() {
    let mut ctx = Ctx::new();
    ctx.created(Resource::Instance).unwrap();
    ctx.created(Resource::DebugMessenger).unwrap();
    assert_eq!(ctx.teardown(), vec![Resource::DebugMessenger, Resource::Instance]);
}

#[test]
fn release_hands_out_the_youngest_resource() {
    let mut ctx = complete();
    assert_eq!(ctx.release(), Some(Resource::Device));
    assert!(!ctx.is_complete());
    assert_eq!(ctx.next_to_create(), Some(Resource::Device));
    assert_eq!(ctx.release(), Some(Resource::DebugMessenger));
    assert_eq!(ctx.release(), Some(Resource::Instance));
    assert_eq!(ctx.release(), None);
    assert_eq!(ctx.release(), None);
}

#[test]
fn released_resource_can_be_created_again() {
    let mut ctx = complete();
    assert_eq!(ctx.release(), Some(Resource::Device));
    assert_eq!(ctx.created(Resource::Device), Ok(()));
    assert!(ctx.is_complete());
}

#[test]
fn first_physical_device_is_picked() {
    let first = vk::PhysicalDevice::from_raw(0x100);
    let second = vk::PhysicalDevice::from_raw(0x200);
    assert_eq!(first_physical_device(&[first, second]), Ok(first));
    assert_eq!(first_physical_device(&[second]), Ok(second));
}

#[test]
fn no_physical_device_is_an_error() {
    assert_eq!(first_physical_device(&[]), Err(CtxError::NoPhysicalDevice));
}

#[test]
fn names_without_zero_byte_are_accepted() {
    assert_eq!(check_names(&[]), Ok(()));
    assert_eq!(check_names(&["VK_LAYER_KHRONOS_validation"]), Ok(()));
    assert_eq!(check_names(&["VK_EXT_debug_utils", "VK_KHR_surface", ""]), Ok(()));
}

#[test]
fn first_name_with_zero_byte_is_reported() {
    assert_eq!(check_names(&["VK_KHR\0surface"]), Err(CtxError::NulInName { index: 0 }));
    assert_eq!(
        check_names(&["VK_EXT_debug_utils", "a\0", "\0b"]),
        Err(CtxError::NulInName { index: 1 })
    );
    assert_eq!(check_names(&["ok", "ok", "trailing\0"]), Err(CtxError::NulInName { index: 2 }));
}

#[test]
fn zero_byte_is_found_anywhere_in_a_name() {
    assert!(!name_has_nul(""));
    assert!(!name_has_nul("VK_KHR_surface"));
    assert!(!name_has_nul("gr\u{fc}n 0"));
    assert!(name_has_nul("\0"));
    assert!(name_has_nul("\0abc"));
    assert!(name_has_nul("ab\0c"));
    assert!(name_has_nul("abc\0"));
}

#[test]
fn command_pool_serves_the_transfer_family() {
    let graphics = vk::Queue::from_raw(1);
    let transfer = vk::Queue::from_raw(2);
    let indices = QueueFamilyIndices { graphics_index: 0, transfer_index: 2 };
    let queues = QueuesCtx::new(indices, graphics, Some(transfer));
    assert_eq!(command_pool_config(&queues), CommandPoolConfig { queue_family_index: 2, flags: 0 });
    assert_eq!(vk::CommandPoolCreateFlags::empty().as_raw(), 0);
    let shared = QueuesCtx::new(QueueFamilyIndices { graphics_index: 1, transfer_index: 1 }, graphics, None);
    assert_eq!(command_pool_config(&shared), CommandPoolConfig { queue_family_index: 1, flags: 0 });
}
