use liquid_eng::io::{LiquidError, LiquidErrorKind};
use liquid_eng::liquid_engine::{EngineState, Event, EventQueue, LiquidEngine};
use liquid_eng::renderer::vulkan::{StepOutcome, VulkanSetup};
use liquid_eng::renderer::{
    LiquidAttachRendererToWindowInfo, LiquidCreateRendererInfo, LiquidRenderer, LiquidRendererDevices, LiquidRendererTypes,
};
use liquid_eng::window::win32::{win_proc, NativeAction, NativeCreation, WM_CLOSE};
use liquid_eng::window::{message_pump, CreateWindowInfo, PumpStep};

fn renderer_info(renderer_type: LiquidRendererTypes) -> LiquidCreateRendererInfo {
    LiquidCreateRendererInfo {
        application_name: "Test Window".to_string(),
        version_variant: 0,
        version_major: 1,
        version_minor: 0,
        version_patch: 0,
        renderer_type,
    }
}

fn vulkan_renderer() -> LiquidRenderer {
    let mut setup = VulkanSetup::new(true);
    setup.report(StepOutcome::Done);
    setup.report(StepOutcome::Done);
    setup.report(StepOutcome::Done);
    setup.report(StepOutcome::Devices(vec![LiquidRendererDevices {
        name: "gpu".to_string(),
        vendor_id: 1,
        device_id: 2,
    }]));
    setup.report(StepOutcome::Done);
    setup.report(StepOutcome::Done);
    LiquidRenderer::new(&renderer_info(LiquidRendererTypes::Vulkan), setup).unwrap()
}

fn engine() -> LiquidEngine {
    LiquidEngine::new(vulkan_renderer())
}

fn window(title: &str, close_exits_program: bool) -> CreateWindowInfo {
    CreateWindowInfo {
        title: title.to_string(),
        width: 640,
        height: 480,
        close_exits_program,
        parent_window: None,
    }
}

fn created(handle: isize) -> NativeCreation {
    NativeCreation::Created { window_handle: handle, instance: 1 }
}

#[test]
fn created_windows_get_distinct_identifiers() {
    let mut e = engine();
    let mut ids = Vec::new();
    for (i, title) in ["One", "Two", "Three", "Four"].iter().enumerate() {
        ids.push(e.create_window(&window(title, false), created(i as isize + 1)).unwrap());
    }
    for i in 0..ids.len() {
        for j in 0..ids.len() {
            if i != j {
                assert_ne!(ids[i], ids[j]);
            }
        }
        assert!(e.contains_window(&ids[i]));
    }
    assert_eq!(e.window_count(), 4);
}

#[test]
fn created_identifier_is_a_random_uuid() {
    let mut e = engine();
    let id = e.create_window(&window("One", false), created(1)).unwrap();
    assert_eq!((id >> 76) & 0xf, 4);
    assert_eq!((id >> 62) & 0x3, 2);
}

#[test]
fn refused_native_window_is_not_registered() {
    let mut e = engine();
    assert!(e.create_window(&window("One", false), NativeCreation::WindowRejected).is_err());
    assert!(e.create_window(&window("Two", false), NativeCreation::ClassRejected).is_err());
    assert!(matches!(
        e.create_window(&window("Three", false), NativeCreation::WindowRejected).unwrap_err().kind,
        LiquidErrorKind::WindowCreation(_)
    ));
    assert!(matches!(
        e.create_window(&window("Four", false), NativeCreation::ClassRejected).unwrap_err().kind,
        LiquidErrorKind::ClassRegistration(_)
    ));
    assert_eq!(e.window_count(), 0);
}

#[test]
fn registering_a_taken_identifier_fails() {
    let mut e = engine();
    assert_eq!(e.register_window(9, &window("One", false), created(1)).unwrap(), 9);
    let err = e.register_window(9, &window("Two", false), created(2)).unwrap_err();
    assert_eq!(err.kind, LiquidErrorKind::WindowAlreadyRegistered(9));
    assert_eq!(e.window_count(), 1);
}

#[test]
fn destroy_window_twice_reports_not_found() {
    let mut e = engine();
    let id = e.create_window(&window("One", false), created(5)).unwrap();
    let w = e.destroy_window(&id).unwrap();
    assert_eq!(w.proc_data().window_id, id);
    let err = e.destroy_window(&id).unwrap_err();
    assert_eq!(err.kind, LiquidErrorKind::WindowNotFound(id));
    assert_eq!(e.window_count(), 0);
}

#[test]
fn raw_identifier_is_read_most_significant_first() {
    let mut e = engine();
    e.register_window(0x0102, &window("One", false), created(1)).unwrap();
    let mut bytes = [0u8; 16];
    bytes[14] = 1;
    bytes[15] = 2;
    assert_eq!(e.get_liquid_window_raw(&bytes).unwrap().proc_data().window_id, 0x0102);
    let mut swapped = [0u8; 16];
    swapped[14] = 2;
    swapped[15] = 1;
    assert_eq!(e.get_liquid_window_raw(&swapped).unwrap_err().kind, LiquidErrorKind::WindowNotFound(0x0201));
    assert!(e.destroy_window_raw(&bytes).is_ok());
    assert_eq!(e.destroy_window_raw(&bytes).unwrap_err().kind, LiquidErrorKind::WindowNotFound(0x0102));
}

#[test]
fn get_liquid_window_finds_registered_only() {
    let mut e = engine();
    e.register_window(21, &window("One", true), created(1)).unwrap();
    assert!(e.get_liquid_window(&21).unwrap().proc_data().close_exits_program);
    assert_eq!(e.get_liquid_window(&22).unwrap_err().kind, LiquidErrorKind::WindowNotFound(22));
}

#[test]
fn apply_events_closes_windows_and_reports_exit() {
    let mut e = engine();
    e.register_window(1, &window("One", false), created(1)).unwrap();
    e.register_window(2, &window("Two", false), created(2)).unwrap();
    e.register_window(3, &window("Three", false), created(3)).unwrap();
    assert!(!e.apply_events(&vec![Event::Close(1), Event::Close(99)]));
    assert_eq!(e.window_count(), 2);
    assert!(e.apply_events(&vec![Event::Exit, Event::Close(2)]));
    assert!(!e.contains_window(&2));
    assert!(e.contains_window(&3));
    assert!(!e.apply_events(&Vec::new()));
}

#[test]
fn engine_states_advance_in_order_only() {
    let mut e = engine();
    assert_eq!(e.current_state(), EngineState::Constructed);
    assert_eq!(e.transition(EngineState::ShuttingDown).unwrap_err().kind, LiquidErrorKind::EngineState);
    assert!(e.transition(EngineState::Running).is_ok());
    assert!(e.transition(EngineState::Running).is_err());
    assert!(e.transition(EngineState::ShuttingDown).is_ok());
    assert!(e.transition(EngineState::Terminated).is_ok());
    assert!(e.transition(EngineState::Constructed).is_err());
    assert_eq!(e.current_state(), EngineState::Terminated);
}

#[test]
fn default_error_is_empty() {
    let e = LiquidError::default();
    assert_eq!(e.kind, LiquidErrorKind::Unspecified);
    assert_eq!(e.msg, "");
    assert_eq!((e.line, e.column), (0, 0));
}

#[test]
fn vulkan_engine_closes_program_window_and_shuts_down() {
    let mut e = LiquidEngine::new(vulkan_renderer());
    let id = e.create_window(&window("Test Window", true), created(77)).unwrap();
    let attach = LiquidAttachRendererToWindowInfo { window_uuid: id };
    assert!(e.attach_renderer_to_window(&attach).unwrap());
    let mut queue = EventQueue::new();
    assert!(e.transition(EngineState::Running).is_ok());

    let ctx = *e.get_liquid_window(&id).unwrap().proc_data();
    let out = win_proc(Some(&ctx), WM_CLOSE);
    assert_eq!(out.len(), 4);
    assert_eq!(out[2], NativeAction::PostQuit);
    assert_eq!(out[3], NativeAction::DestroyWindow);
    for action in out {
        if let NativeAction::Push(event) = action {
            queue.push(event);
        }
    }
    assert_eq!(message_pump(0), PumpStep::Quit);
    assert!(e.transition(EngineState::ShuttingDown).is_ok());

    let batch = queue.drain();
    assert_eq!(batch, vec![Event::Close(id), Event::Exit]);
    assert!(e.apply_events(&batch));
    assert_eq!(e.window_count(), 0);
    assert!(queue.drain().is_empty());
    assert!(e.transition(EngineState::Terminated).is_ok());
    match e.get_renderer() {
        LiquidRenderer::Vulkan(v) => assert_eq!(v.get_render_screen_size(), (1080, 720)),
        LiquidRenderer::OpenGL(_) => panic!("expected the Vulkan backend"),
    }
}

#[test]
fn error_text_names_message_and_place() {
    let e = LiquidError::at(LiquidErrorKind::EntryLoad, "Unable to load", "src/x.rs", 120, 7);
    assert_eq!(e.to_text(), "Liquid Error caught, {msg : Unable to load, file : src/x.rs, (120:7}");
    let e = LiquidError::at(LiquidErrorKind::EngineState, "", "", 0, 4294967295);
    assert_eq!(e.to_text(), "Liquid Error caught, {msg : , file : , (0:4294967295}");
}

#[test]
fn raised_errors_carry_their_location() {
    let mut e = engine();
    let err = e.destroy_window(&1).unwrap_err();
    assert_eq!(err.file, "src/liquid_engine.rs");
    assert!(err.line > 0);
    assert!(err.column > 0);
}

#[test]
fn error_messages_name_the_identifier() {
    let mut e = engine();
    let id: u128 = 0x0123_4567_89ab_cdef_0011_2233_4455_6677;
    let err = e.destroy_window(&id).unwrap_err();
    assert_eq!(err.msg, "Unable to find and destroy window of uuid 01234567-89ab-cdef-0011-223344556677");
    let err = e.get_liquid_window(&7).unwrap_err();
    assert_eq!(err.msg, "Unable to find and return window of uuid 00000000-0000-0000-0000-000000000007");
    let mut bytes = [0u8; 16];
    bytes[0] = 0xff;
    let err = e.destroy_window_raw(&bytes).unwrap_err();
    assert_eq!(err.msg, "Unable to find and destroy window of uuid ff000000-0000-0000-0000-000000000000");
    let err = e.get_liquid_window_raw(&bytes).unwrap_err();
    assert_eq!(err.msg, "Unable to find and return window of uuid ff000000-0000-0000-0000-000000000000");
    let err = e.register_window(5, &window("One", false), NativeCreation::ClassRejected).unwrap_err();
    assert_eq!(err.msg, "Unable to register class: 00000000-0000-0000-0000-000000000005");
    let err = e.register_window(5, &window("One", false), NativeCreation::WindowRejected).unwrap_err();
    assert_eq!(err.msg, "Unable to create window: 00000000-0000-0000-0000-000000000005");
    e.register_window(5, &window("One", false), created(1)).unwrap();
    let err = e.register_window(5, &window("Two", false), created(2)).unwrap_err();
    assert_eq!(err.msg, "A window is already registered under uuid 00000000-0000-0000-0000-000000000005");
    let err = e.destroy_window(&u128::MAX).unwrap_err();
    assert_eq!(err.msg, "Unable to find and destroy window of uuid ffffffff-ffff-ffff-ffff-ffffffffffff");
}

#[test]
fn destroy_twice_names_the_identifier() {
    let mut e = engine();
    let id = e.create_window(&window("One", false), created(5)).unwrap();
    assert!(e.destroy_window(&id).is_ok());
    let err = e.destroy_window(&id).unwrap_err();
    assert_eq!(err.msg, format!("Unable to find and destroy window of uuid {}", uuid::Uuid::from_u128(id)));
}
