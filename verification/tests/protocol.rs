//! Unit tests of the dispatch protocol pieces: handler decisions, the
//! dispatch callback, the identity binder, the message queue, the class
//! registry, and the fixed configuration.

use winshell::binder::WindowSlot;
use winshell::config;
use winshell::error::OsError;
use winshell::handler::PaintOp;
use winshell::message::{Message, MSG_DESTROY, MSG_NCCREATE, MSG_PAINT, MSG_QUIT};
use winshell::os::process_exit_code;
use winshell::queue::{MessageQueue, Retrieved};
use winshell::registry::{class_descriptor, ClassRegistry};
use winshell::window::MainWindow;

const MSG_SIZE: u32 = 0x0005;

#[test]
fn handler_paints_once_when_rect_available() {
    let mut win = MainWindow::new(5, 42);
    let out = win.message_handle(7, MSG_PAINT, 0, 0, true);
    assert_eq!(out.result, Some(0));
    assert_eq!(
        out.paint,
        vec![
            PaintOp::Begin,
            PaintOp::Draw(config::DRAW_CENTERED_SINGLE_LINE),
            PaintOp::End,
        ]
    );
    assert_eq!(out.quit, None);
}

#[test]
fn handler_declines_paint_without_rect() {
    let mut win = MainWindow::new(5, 42);
    let out = win.message_handle(7, MSG_PAINT, 0, 0, false);
    assert_eq!(out.result, None);
    assert!(out.paint.is_empty());
    assert_eq!(out.quit, None);
}

#[test]
fn handler_destroy_posts_single_quit() {
    let mut win = MainWindow::new(5, 42);
    let out = win.message_handle(7, MSG_DESTROY, 0, 0, true);
    assert_eq!(out.result, Some(0));
    assert!(out.paint.is_empty());
    assert_eq!(out.quit, Some(0));
}

#[test]
fn handler_defers_other_kinds() {
    let mut win = MainWindow::new(5, 42);
    let out = win.message_handle(7, MSG_SIZE, 800, 600, true);
    assert_eq!(out.result, None);
    assert!(out.paint.is_empty());
    assert_eq!(out.quit, None);
}

#[test]
fn wnd_proc_precreation_binds_and_acks() {
    let mut win = MainWindow::new(5, 42);
    let mut slot = WindowSlot::new();
    let m = Message { hwnd: 7, kind: MSG_NCCREATE, wparam: 0, lparam: 42 };
    let out = win.wnd_proc(&mut slot, m, true, 0);
    assert_eq!(out.result, 1);
    assert_eq!(out.forwarded, Some(m));
    assert!(out.paint.is_empty());
    assert_eq!(out.quit, None);
    assert_eq!(slot.assoc, 42);
}

#[test]
fn wnd_proc_routes_to_handler_when_bound() {
    let mut win = MainWindow::new(5, 42);
    let mut slot = WindowSlot::new();
    slot.bind(42);
    let m = Message { hwnd: 7, kind: MSG_PAINT, wparam: 0, lparam: 0 };
    let out = win.wnd_proc(&mut slot, m, true, 33);
    assert_eq!(out.result, 0);
    assert_eq!(out.forwarded, None);
    assert_eq!(
        out.paint,
        vec![
            PaintOp::Begin,
            PaintOp::Draw(config::DRAW_CENTERED_SINGLE_LINE),
            PaintOp::End,
        ]
    );
    assert_eq!(out.quit, None);
    assert_eq!(slot.assoc, 42);
}

#[test]
fn wnd_proc_forwards_unhandled_verbatim() {
    let mut win = MainWindow::new(5, 42);
    let mut slot = WindowSlot::new();
    slot.bind(42);
    let m = Message { hwnd: 7, kind: MSG_SIZE, wparam: 800, lparam: 600 };
    let out = win.wnd_proc(&mut slot, m, true, 77);
    assert_eq!(out.result, 77);
    assert_eq!(out.forwarded, Some(m));
    assert!(out.paint.is_empty());
    assert_eq!(out.quit, None);
    assert_eq!(slot.assoc, 42);
}

#[test]
fn wnd_proc_defensive_without_association() {
    let mut win = MainWindow::new(5, 42);
    let mut slot = WindowSlot::new();
    let m = Message { hwnd: 7, kind: MSG_PAINT, wparam: 0, lparam: 0 };
    let out = win.wnd_proc(&mut slot, m, true, -3);
    assert_eq!(out.result, -3);
    assert_eq!(out.forwarded, Some(m));
    assert!(out.paint.is_empty());
    assert_eq!(out.quit, None);
    assert_eq!(slot.assoc, 0);
}

#[test]
fn queue_quit_seen_before_pending() {
    let mut q = MessageQueue::new();
    q.pending.push(Message { hwnd: 7, kind: MSG_PAINT, wparam: 0, lparam: 0 });
    q.post_quit(9);
    assert_eq!(q.get_message(), Retrieved::Quit(9));
    assert_eq!(q.pending.len(), 1);
}

#[test]
fn queue_delivers_in_order() {
    let mut q = MessageQueue::new();
    let m1 = Message { hwnd: 7, kind: MSG_PAINT, wparam: 0, lparam: 0 };
    let m2 = Message { hwnd: 7, kind: MSG_DESTROY, wparam: 0, lparam: 0 };
    q.pending.push(m1);
    q.pending.push(m2);
    assert_eq!(q.get_message(), Retrieved::Deliver(m1));
    assert_eq!(q.get_message(), Retrieved::Deliver(m2));
    assert!(q.pending.is_empty());
}

#[test]
fn registry_rejects_duplicate_name() {
    let mut reg = ClassRegistry::new();
    assert!(reg.register(class_descriptor(5, "T".to_string())));
    assert!(!reg.register(class_descriptor(5, "T".to_string())));
    assert_eq!(reg.classes.len(), 1);
}

#[test]
fn registry_lookup_by_name() {
    let mut reg = ClassRegistry::new();
    assert!(!reg.is_registered(&"T".to_string()));
    assert!(reg.register(class_descriptor(5, "T".to_string())));
    assert!(reg.is_registered(&"T".to_string()));
    assert!(!reg.is_registered(&"U".to_string()));
}

#[test]
fn class_descriptor_fields() {
    let d = class_descriptor(5, "T".to_string());
    assert_eq!(d.style, config::CLASS_STYLES);
    assert_eq!(d.icon, config::DEFAULT_ICON);
    assert_eq!(d.cursor, config::ARROW_CURSOR);
    assert_eq!(d.small_icon, config::DEFAULT_ICON);
    assert_eq!(d.background, config::BACKGROUND_BRUSH);
    assert_eq!(d.module, 5);
    assert_eq!(d.name, "T".to_string());
    assert!(d.has_dispatcher);
}

#[test]
fn configuration_constants() {
    assert_eq!(config::MAIN_WINDOW_WIDTH, 800);
    assert_eq!(config::MAIN_WINDOW_HEIGHT, 600);
    assert_eq!(config::WINDOW_STYLES, 0x00CF0000);
    assert_eq!(config::WINDOW_EX_STYLES, 0x0200);
    assert_eq!(config::CLASS_STYLES, 0x0003);
    assert_eq!(config::BACKGROUND_BRUSH, 6);
    assert_eq!(config::DRAW_CENTERED_SINGLE_LINE, 0x25);
    assert_eq!(config::USE_DEFAULT_POSITION, i32::MIN);
    assert_eq!(config::class_name(), "TEMPLATE_CLASS_NAME");
    assert_eq!(config::window_title(), "TEMPLATE_WINDOW_TITLE");
    assert_eq!(
        config::sample_text(),
        "This is a long sample text, with the default font."
    );
}

#[test]
fn notification_kind_values() {
    assert_eq!(MSG_NCCREATE, 0x0081);
    assert_eq!(MSG_PAINT, 0x000F);
    assert_eq!(MSG_DESTROY, 0x0002);
    assert_eq!(MSG_QUIT, 0x0012);
}

#[test]
fn error_codes_and_descriptions() {
    assert_eq!(OsError::RegistrationFailed(1410).code(), 1410);
    assert_eq!(OsError::CreationFailed(8).code(), 8);
    assert_eq!(OsError::ClientRectUnavailable(6).code(), 6);
    assert_eq!(OsError::DpiAwarenessRejected(5).code(), 5);
    assert_eq!(
        OsError::RegistrationFailed(1410).describe(),
        "window class registration failed"
    );
    assert_eq!(OsError::CreationFailed(8).describe(), "window creation failed");
    assert_eq!(
        OsError::ClientRectUnavailable(6).describe(),
        "client rectangle unavailable"
    );
    assert_eq!(
        OsError::DpiAwarenessRejected(5).describe(),
        "DPI awareness rejected"
    );
}

#[test]
fn exit_code_conversion() {
    assert_eq!(process_exit_code(&Ok(Some(0))), 0);
    assert_eq!(process_exit_code(&Ok(Some(7))), 7);
    assert_eq!(process_exit_code(&Ok(Some(0x1FF))), 0xFF);
    assert_eq!(process_exit_code(&Err(OsError::RegistrationFailed(1410))), 130);
    assert_eq!(process_exit_code(&Err(OsError::DpiAwarenessRejected(5))), 5);
}

#[test]
fn main_menu_is_null() {
    assert_eq!(MainWindow::create_main_menu(), 0);
}

#[test]
fn new_window_starts_without_handle() {
    let win = MainWindow::new(5, 42);
    assert_eq!(win.instance, 5);
    assert_eq!(win.handle, 0);
    assert_eq!(win.id, 42);
}
