//! End-to-end scenarios over the modelled windowing subsystem: full runs of
//! the shell, event-loop behavior around quit requests, and setup failures.

use winshell::config;
use winshell::error::OsError;
use winshell::handler::PaintOp;
use winshell::message::{Message, MSG_DESTROY, MSG_PAINT, MSG_QUIT};
use winshell::os::{process_exit_code, run, Os};
use winshell::registry::class_descriptor;
use winshell::window::{create_window, register_class, show_window, MainWindow};

const MSG_SIZE: u32 = 0x0005;

fn paint_message(hwnd: u64) -> Message {
    Message { hwnd, kind: MSG_PAINT, wparam: 0, lparam: 0 }
}

fn destroy_message(hwnd: u64) -> Message {
    Message { hwnd, kind: MSG_DESTROY, wparam: 0, lparam: 0 }
}

#[test]
fn end_to_end_paint_then_destroy() {
    let mut os = Os::boot(5, 7, true, true, 0, 0);
    os.queue.pending.push(paint_message(7));
    os.queue.pending.push(destroy_message(7));
    let r = run(&mut os, 42);
    assert_eq!(r, Ok(Some(0)));
    assert_eq!(
        os.paint_log,
        vec![
            PaintOp::Begin,
            PaintOp::Draw(config::DRAW_CENTERED_SINGLE_LINE),
            PaintOp::End,
        ]
    );
    assert_eq!(os.slot.assoc, 42);
    assert!(os.shown);
    assert!(os.create_attempted);
    assert!(os.registry.is_registered(&config::class_name()));
    assert_eq!(os.queue.quit, Some(0));
    assert!(os.queue.pending.is_empty());
    match &os.created {
        Some(p) => {
            assert_eq!(p.class_name, config::class_name());
            assert_eq!(p.title, config::window_title());
            assert_eq!(p.width, 800);
            assert_eq!(p.height, 600);
            assert_eq!(p.payload, 42);
        },
        None => panic!("window was not created"),
    }
    assert_eq!(process_exit_code(&r), 0);
}

#[test]
fn end_to_end_explicit_class_and_title() {
    let mut os = Os::boot(5, 7, true, true, 0, 0);
    let mut win = MainWindow::new(5, 42);
    assert_eq!(register_class(&mut os, 5, "T".to_string()), Ok(()));
    let created = create_window(
        &mut os,
        &mut win,
        "T".to_string(),
        "Demo".to_string(),
        config::WINDOW_STYLES,
        config::WINDOW_EX_STYLES,
        config::USE_DEFAULT_POSITION,
        0,
        800,
        600,
    );
    assert_eq!(created, Ok(7));
    assert_eq!(win.handle, 7);
    assert_eq!(os.slot.assoc, 42);
    show_window(&mut os, true);
    assert!(os.shown);
    os.queue.pending.push(paint_message(7));
    os.queue.pending.push(destroy_message(7));
    let exit = win.message_loop(&mut os);
    assert_eq!(exit, Some(0));
    assert_eq!(
        os.paint_log,
        vec![
            PaintOp::Begin,
            PaintOp::Draw(config::DRAW_CENTERED_SINGLE_LINE),
            PaintOp::End,
        ]
    );
    match &os.created {
        Some(p) => {
            assert_eq!(p.class_name, "T");
            assert_eq!(p.title, "Demo");
            assert_eq!(p.width, 800);
            assert_eq!(p.height, 600);
        },
        None => panic!("window was not created"),
    }
}

#[test]
fn registration_failure_aborts_before_creation() {
    let mut os = Os::boot(5, 7, true, true, 0, 1410);
    assert!(os.registry.register(class_descriptor(5, config::class_name())));
    let r = run(&mut os, 42);
    assert_eq!(r, Err(OsError::RegistrationFailed(1410)));
    assert!(!os.create_attempted);
    assert!(os.created.is_none());
    assert_eq!(os.slot.assoc, 0);
    assert!(!os.shown);
    let code = process_exit_code(&r);
    assert_eq!(code, 130);
    assert_ne!(code, 0);
}

#[test]
fn dpi_rejection_aborts_startup() {
    let mut os = Os::boot(5, 7, false, true, 0, 5);
    let r = run(&mut os, 42);
    assert_eq!(r, Err(OsError::DpiAwarenessRejected(5)));
    assert!(!os.create_attempted);
    assert_eq!(os.registry.classes.len(), 0);
    assert_eq!(process_exit_code(&r), 5);
}

#[test]
fn null_handle_fails_creation_after_registration() {
    let mut os = Os::boot(5, 0, true, true, 0, 8);
    let r = run(&mut os, 42);
    assert_eq!(r, Err(OsError::CreationFailed(8)));
    assert!(os.create_attempted);
    assert!(os.registry.is_registered(&config::class_name()));
    assert_eq!(os.slot.assoc, 0);
    assert_eq!(process_exit_code(&r), 8);
}

#[test]
fn pending_quit_request_stops_loop_before_pending_messages() {
    let mut os = Os::boot(5, 7, true, true, 0, 0);
    let mut win = MainWindow::new(5, 42);
    os.slot.bind(42);
    os.queue.pending.push(paint_message(7));
    os.queue.post_quit(3);
    let exit = win.message_loop(&mut os);
    assert_eq!(exit, Some(3));
    assert!(os.paint_log.is_empty());
    assert_eq!(os.queue.pending.len(), 1);
}

#[test]
fn destroy_stops_loop_despite_messages_behind_it() {
    let mut os = Os::boot(5, 7, true, true, 0, 0);
    let mut win = MainWindow::new(5, 42);
    os.slot.bind(42);
    os.queue.pending.push(destroy_message(7));
    os.queue.pending.push(paint_message(7));
    os.queue.pending.push(paint_message(7));
    let exit = win.message_loop(&mut os);
    assert_eq!(exit, Some(0));
    assert!(os.paint_log.is_empty());
    assert_eq!(os.queue.pending.len(), 2);
    assert_eq!(os.queue.quit, Some(0));
}

#[test]
fn quit_notification_stops_loop_immediately() {
    let mut os = Os::boot(5, 7, true, true, 0, 0);
    let mut win = MainWindow::new(5, 42);
    os.slot.bind(42);
    os.queue.pending.push(Message { hwnd: 7, kind: MSG_QUIT, wparam: 11, lparam: 0 });
    os.queue.pending.push(paint_message(7));
    let exit = win.message_loop(&mut os);
    assert_eq!(exit, Some(11));
    assert!(os.paint_log.is_empty());
    assert_eq!(os.queue.pending.len(), 1);
}

#[test]
fn drained_queue_leaves_loop_blocked() {
    let mut os = Os::boot(5, 7, true, true, 0, 0);
    let mut win = MainWindow::new(5, 42);
    os.slot.bind(42);
    os.queue.pending.push(Message { hwnd: 7, kind: MSG_SIZE, wparam: 800, lparam: 600 });
    let exit = win.message_loop(&mut os);
    assert_eq!(exit, None);
    assert!(os.paint_log.is_empty());
    assert!(os.queue.pending.is_empty());
}

#[test]
fn unobtainable_rect_skips_paint_session() {
    let mut os = Os::boot(5, 7, true, false, 0, 0);
    os.queue.pending.push(paint_message(7));
    os.queue.pending.push(destroy_message(7));
    let r = run(&mut os, 42);
    assert_eq!(r, Ok(Some(0)));
    assert!(os.paint_log.is_empty());
}
