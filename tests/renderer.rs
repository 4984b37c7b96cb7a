use liquid_eng::io::LiquidErrorKind;
use liquid_eng::renderer::opengl::LiquidOpenGLRenderer;
use liquid_eng::renderer::vulkan::{
    application_version, debug_message_text, device_extensions, device_queue_requests, instance_extensions,
    instance_layers, LiquidVulkanRenderer, QueueRequest, StepOutcome, TargetPlatform, VulkanObject, VulkanSetup,
};
use liquid_eng::renderer::{
    LiquidCreateRendererInfo, LiquidRenderer, LiquidRendererDevices, LiquidRendererTypes, VulkanStep,
};

fn gpu(name: &str) -> LiquidRendererDevices {
    LiquidRendererDevices { name: name.to_string(), vendor_id: 0x10de, device_id: 0x2204 }
}

fn renderer_info(renderer_type: LiquidRendererTypes) -> LiquidCreateRendererInfo {
    LiquidCreateRendererInfo {
        application_name: "Test Window".to_string(),
        version_variant: 0,
        version_major: 1,
        version_minor: 0,
        version_patch: 0,
        renderer_type,
    }
}

fn run_to_enumeration(debug: bool) -> VulkanSetup {
    let mut s = VulkanSetup::new(debug);
    assert_eq!(s.current_step(), VulkanStep::LoadEntry);
    assert!(s.report(StepOutcome::Done).is_empty());
    assert_eq!(s.current_step(), VulkanStep::CreateInstance);
    assert!(s.report(StepOutcome::Done).is_empty());
    if debug {
        assert_eq!(s.current_step(), VulkanStep::InstallDebugMessenger);
        assert!(s.report(StepOutcome::Done).is_empty());
    }
    assert_eq!(s.current_step(), VulkanStep::EnumerateDevices);
    s
}

#[test]
fn vulkan_setup_completes_in_order() {
    let mut s = run_to_enumeration(true);
    assert!(s.report(StepOutcome::Devices(vec![gpu("first"), gpu("second")])).is_empty());
    assert_eq!(s.current_step(), VulkanStep::QueryQueueFamilies);
    assert!(s.report(StepOutcome::Done).is_empty());
    assert_eq!(s.current_step(), VulkanStep::CreateDevice);
    assert!(s.report(StepOutcome::Done).is_empty());
    assert_eq!(s.current_step(), VulkanStep::Complete);
    let r = LiquidVulkanRenderer::new(s).unwrap();
    assert_eq!(r.get_render_screen_size(), (1080, 720));
    assert_eq!(r.get_devices().len(), 2);
    assert_eq!(r.get_devices()[0].name, "first");
    assert_eq!(
        r.teardown_order(),
        vec![VulkanObject::Device, VulkanObject::DebugMessenger, VulkanObject::Instance, VulkanObject::Entry]
    );
}

#[test]
fn release_build_skips_debug_messenger() {
    let mut s = run_to_enumeration(false);
    s.report(StepOutcome::Devices(vec![gpu("only")]));
    s.report(StepOutcome::Done);
    s.report(StepOutcome::Done);
    let r = LiquidVulkanRenderer::new(s).unwrap();
    assert_eq!(r.teardown_order(), vec![VulkanObject::Device, VulkanObject::Instance, VulkanObject::Entry]);
}

#[test]
fn zero_devices_fails_and_releases_instance_only() {
    let mut s = run_to_enumeration(true);
    let release = s.report(StepOutcome::Devices(Vec::new()));
    assert_eq!(release, vec![VulkanObject::DebugMessenger, VulkanObject::Instance, VulkanObject::Entry]);
    assert_eq!(s.current_step(), VulkanStep::Failed);
    let e = LiquidVulkanRenderer::new(s).unwrap_err();
    assert_eq!(e.kind, LiquidErrorKind::NoPhysicalDevice);
    assert_eq!(e.msg, "Unable to find any graphical devices");

    let mut s = run_to_enumeration(false);
    let release = s.report(StepOutcome::Done);
    assert_eq!(release, vec![VulkanObject::Instance, VulkanObject::Entry]);
    assert_eq!(LiquidVulkanRenderer::new(s).unwrap_err().kind, LiquidErrorKind::NoPhysicalDevice);
}

#[test]
fn entry_load_failure_releases_nothing() {
    let mut s = VulkanSetup::new(false);
    assert!(s.report(StepOutcome::Error(0, "libvulkan.so.1: cannot open".to_string())).is_empty());
    let e = LiquidVulkanRenderer::new(s).unwrap_err();
    assert_eq!(e.kind, LiquidErrorKind::EntryLoad);
    assert_eq!(e.msg, "Unable to load vulkan library libvulkan.so.1: cannot open");
}

#[test]
fn instance_failure_carries_driver_code() {
    let mut s = VulkanSetup::new(true);
    s.report(StepOutcome::Done);
    let release = s.report(StepOutcome::Error(-9, "ERROR_INCOMPATIBLE_DRIVER".to_string()));
    assert_eq!(release, vec![VulkanObject::Entry]);
    let e = LiquidVulkanRenderer::new(s).unwrap_err();
    assert_eq!(e.kind, LiquidErrorKind::GpuStep(VulkanStep::CreateInstance, -9));
    assert_eq!(e.msg, "Error while calling create_instance: -9");
}

#[test]
fn device_failure_releases_in_reverse() {
    let mut s = run_to_enumeration(true);
    s.report(StepOutcome::Devices(vec![gpu("only")]));
    s.report(StepOutcome::Done);
    let release = s.report(StepOutcome::Error(-7, "ERROR_FEATURE_NOT_PRESENT".to_string()));
    assert_eq!(release, vec![VulkanObject::DebugMessenger, VulkanObject::Instance, VulkanObject::Entry]);
    let e = LiquidVulkanRenderer::new(s).unwrap_err();
    assert_eq!(e.kind, LiquidErrorKind::GpuStep(VulkanStep::CreateDevice, -7));
    assert_eq!(e.msg, "Unable to create device loader: -7");
}

#[test]
fn extension_and_layer_lists() {
    assert_eq!(
        instance_extensions(true, TargetPlatform::Windows),
        vec!["VK_KHR_surface".to_string(), "VK_EXT_debug_utils".to_string(), "VK_KHR_win32_surface".to_string()]
    );
    assert_eq!(
        instance_extensions(false, TargetPlatform::Linux),
        vec!["VK_KHR_surface".to_string(), "VK_KHR_xcb_surface".to_string()]
    );
    assert_eq!(
        instance_extensions(false, TargetPlatform::MacOs),
        vec!["VK_KHR_surface".to_string(), "VK_EXT_metal_surface".to_string()]
    );
    assert_eq!(instance_layers(true), vec!["VK_LAYER_KHRONOS_validation".to_string()]);
    assert!(instance_layers(false).is_empty());
    assert_eq!(device_extensions(), vec!["VK_KHR_swapchain".to_string()]);
}

#[test]
fn setup_requests_follow_its_build_kind() {
    let s = VulkanSetup::new(true);
    assert_eq!(s.requested_instance_layers(), vec!["VK_LAYER_KHRONOS_validation".to_string()]);
    assert_eq!(
        s.requested_instance_extensions(TargetPlatform::Linux),
        vec!["VK_KHR_surface".to_string(), "VK_EXT_debug_utils".to_string(), "VK_KHR_xcb_surface".to_string()]
    );
    assert!(VulkanSetup::new(false).requested_instance_layers().is_empty());
}

#[test]
fn two_queue_families_one_queue_each() {
    assert_eq!(
        device_queue_requests(),
        vec![
            QueueRequest { family_index: 0, queue_count: 1 },
            QueueRequest { family_index: 1, queue_count: 1 }
        ]
    );
}

#[test]
fn application_version_is_packed() {
    assert_eq!(application_version(&renderer_info(LiquidRendererTypes::Vulkan)), 4194304);
    let mut info = renderer_info(LiquidRendererTypes::Vulkan);
    info.version_minor = 3;
    info.version_patch = 5;
    assert_eq!(application_version(&info), (1 << 22) | (3 << 12) | 5);
}

#[test]
fn renderer_dispatches_on_backend() {
    let e = LiquidRenderer::new(&renderer_info(LiquidRendererTypes::OpenGL), VulkanSetup::new(false)).unwrap_err();
    assert_eq!(e.kind, LiquidErrorKind::UnsupportedBackend);
    assert_eq!(LiquidOpenGLRenderer::new(&renderer_info(LiquidRendererTypes::OpenGL)).unwrap_err().kind, LiquidErrorKind::UnsupportedBackend);
    let mut s = run_to_enumeration(false);
    s.report(StepOutcome::Devices(Vec::new()));
    let e = LiquidRenderer::new(&renderer_info(LiquidRendererTypes::Vulkan), s).unwrap_err();
    assert_eq!(e.kind, LiquidErrorKind::NoPhysicalDevice);
}

#[test]
fn debug_messages_with_id_zero_are_suppressed() {
    assert_eq!(debug_message_text(0, "noise | ignored"), None);
    assert_eq!(
        debug_message_text(17, "Validation Error: [ VUID-x ] Object 0 | handle = 0x1 | The message"),
        Some(" The message".to_string())
    );
    assert_eq!(debug_message_text(-5, "no separator"), Some("no separator".to_string()));
    assert_eq!(debug_message_text(3, "ends with |"), Some(String::new()));
    assert_eq!(debug_message_text(3, ""), Some(String::new()));
}
