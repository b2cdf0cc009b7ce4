use ludo::rc_string::RCString;
use ludo::sdl2::SDL_EVENT_SIZE;
use ludo::sdl2::SDL_Event;
use ludo::sdl2::SDL_QUIT;
use ludo::sdl2::instance::Instance;
use ludo::sdl2::window::Window;
use ludo::sdl2::window::decode_extension_names;

#[test]
fn new_event_has_type_zero() {
    let e = SDL_Event::new();
    assert_eq!(e.get_type(), 0);
}

#[test]
fn event_type_is_little_endian() {
    let mut buffer = [0u8; SDL_EVENT_SIZE];
    buffer[0] = 0x00;
    buffer[1] = 0x01;
    let e = SDL_Event::from_bytes(buffer);
    assert_eq!(e.get_type(), 0x100);
    assert_eq!(e.get_type(), SDL_QUIT);

    let mut buffer = [0u8; SDL_EVENT_SIZE];
    buffer[0] = 0x78;
    buffer[1] = 0x56;
    buffer[2] = 0x34;
    buffer[3] = 0x12;
    let e = SDL_Event::from_bytes(buffer);
    assert_eq!(e.get_type(), 0x12345678);
}

#[test]
fn init_success_marks_inited() {
    let mut inst = Instance::default();
    assert!(!inst.is_inited());
    let r = inst.init(0, String::new());
    assert!(r.is_ok());
    assert!(inst.is_inited());
}

#[test]
fn init_failure_reports_code_and_message() {
    let mut inst = Instance::default();
    let r = inst.init(-1, String::from("no video device"));
    assert_eq!(r, Err((-1, String::from("no video device"))));
    assert!(!inst.is_inited());
}

#[test]
fn load_vulkan_success_marks_loaded() {
    let mut inst = Instance::default();
    assert!(!inst.is_vulkan_loaded());
    let r = inst.load_vulkan(0, String::new());
    assert!(r.is_ok());
    assert!(inst.is_vulkan_loaded());
}

#[test]
fn load_vulkan_failure_reports_code_and_message() {
    let mut inst = Instance::default();
    let r = inst.load_vulkan(3, String::from("driver missing"));
    assert_eq!(r, Err((3, String::from("driver missing"))));
    assert!(!inst.is_vulkan_loaded());
}

#[test]
fn release_demands_each_acquired_resource_once() {
    let mut inst = Instance::default();
    inst.init(0, String::new()).unwrap();
    inst.load_vulkan(0, String::new()).unwrap();
    let a = inst.release();
    assert!(a.unload_vulkan);
    assert!(a.quit);
    assert!(!inst.is_inited());
    assert!(!inst.is_vulkan_loaded());
}

#[test]
fn repeated_release_demands_nothing() {
    let mut inst = Instance::default();
    inst.init(0, String::new()).unwrap();
    let first = inst.release();
    assert!(first.quit);
    let second = inst.release();
    assert!(!second.quit);
    assert!(!second.unload_vulkan);
    assert!(Instance::release_outcome(&second, String::from("stale error")).is_ok());
}

#[test]
fn release_outcome_reads_native_error() {
    let mut inst = Instance::default();
    inst.init(0, String::new()).unwrap();
    let a = inst.release();
    assert!(Instance::release_outcome(&a, String::new()).is_ok());
    let mut inst = Instance::default();
    inst.init(0, String::new()).unwrap();
    let a = inst.release();
    assert_eq!(
        Instance::release_outcome(&a, String::from("boom")),
        Err(String::from("boom"))
    );
}

#[test]
fn create_window_rejects_null_handle() {
    let title = RCString::from_rstr("Rust Ludo");
    assert!(Window::create_window(title, 0).is_err());
}

#[test]
fn create_window_keeps_handle_and_title() {
    let title = RCString::from_rstr("Rust Ludo");
    let w = Window::create_window(title, 0x1234).unwrap();
    assert_eq!(w.native_handle(), 0x1234);
}

#[test]
fn destroy_hands_handle_out_once() {
    let title = RCString::from_rstr("Rust Ludo");
    let mut w = Window::create_window(title, 77).unwrap();
    assert_eq!(w.destroy(), 77);
    assert_eq!(w.native_handle(), 0);
    assert_eq!(w.destroy(), 0);
}

#[test]
fn default_window_has_no_handle_to_destroy() {
    let mut w = Window::default();
    assert_eq!(w.destroy(), 0);
}

#[test]
fn destroy_outcome_reads_native_error() {
    assert!(Window::destroy_outcome(String::new()).is_ok());
    assert_eq!(
        Window::destroy_outcome(String::from("gone")),
        Err(String::from("gone"))
    );
}

#[test]
fn decode_extension_names_keeps_count_and_order() {
    let names = vec![
        b"VK_KHR_surface".to_vec(),
        b"VK_KHR_xlib_surface".to_vec(),
    ];
    let decoded = decode_extension_names(&names);
    assert_eq!(decoded.len(), names.len());
    assert_eq!(decoded[0].get_rstr(), "VK_KHR_surface");
    assert_eq!(decoded[1].get_rstr(), "VK_KHR_xlib_surface");
    assert_eq!(decoded[0].get_cstr(), &b"VK_KHR_surface\0"[..]);
}

#[test]
fn decode_extension_names_empty() {
    let names: Vec<Vec<u8>> = Vec::new();
    assert_eq!(decode_extension_names(&names).len(), 0);
}
