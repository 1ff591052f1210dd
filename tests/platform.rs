use remoteauth::{
    function_name, native_on_send_request_error, native_on_send_request_success, CreateError,
    Delivery, JavaPlatform, OutboundRequest, Platform, PlatformRegistry, Registration,
    ResponseCallback, ResponseLog, SendRequestError,
};
use std::cell::RefCell;
use std::rc::Rc;

#[derive(Debug, Clone, PartialEq, Eq)]
enum Event {
    Response(Vec<u8>),
    Error(i32),
}

struct Recorder {
    events: Rc<RefCell<Vec<Event>>>,
}

impl ResponseCallback for Recorder {
    fn on_response(&mut self, response: Vec<u8>) {
        self.events.borrow_mut().push(Event::Response(response));
    }

    fn on_error(&mut self, error_code: i32) {
        self.events.borrow_mut().push(Event::Error(error_code));
    }
}

fn recorder() -> (Recorder, Rc<RefCell<Vec<Event>>>) {
    let events = Rc::new(RefCell::new(Vec::new()));
    (Recorder { events: Rc::clone(&events) }, events)
}

/// A registry in which the platform under handle 7 is the eighth one created.
fn registry_with_handle_seven() -> PlatformRegistry<&'static str, Recorder> {
    let mut registry = PlatformRegistry::new();
    for expected in 0..8i64 {
        let reg = JavaPlatform::create(&mut registry, "host").unwrap();
        assert_eq!(reg.platform_handle, expected);
    }
    registry
}

#[test]
fn test_function_name() {
    let path = "platform::test_function_name::f";
    assert_eq!(function_name(path), "test_function_name");
}

#[test]
fn function_name_without_module_path() {
    assert_eq!(function_name("main::f"), "main");
    assert_eq!(function_name("a::b::c::send_request::f"), "send_request");
}

#[test]
fn first_registration_starts_logging_once() {
    let mut registry: PlatformRegistry<u32, Recorder> = PlatformRegistry::new();
    let first = JavaPlatform::create(&mut registry, 10);
    assert_eq!(first, Ok(Registration { platform_handle: 0, start_logging: true }));
    let second = JavaPlatform::create(&mut registry, 11);
    assert_eq!(second, Ok(Registration { platform_handle: 1, start_logging: false }));
    assert!(registry.contains(0));
    assert!(registry.contains(1));
    assert!(!registry.contains(2));
    assert_eq!(*registry.lookup(1).unwrap().host(), 11);
    assert_eq!(registry.lookup(1).unwrap().platform_handle(), 1);
    let none: Result<Registration, CreateError> = Err(CreateError::PlatformHandlesExhausted);
    assert_ne!(first, none);
}

#[test]
fn platform_handles_increase() {
    let mut registry: PlatformRegistry<(), Recorder> = PlatformRegistry::new();
    let mut previous = -1i64;
    for _ in 0..100 {
        let h = registry.generate_platform_handle().unwrap();
        assert!(h > previous);
        previous = h;
    }
    assert_eq!(previous, 99);
    let reg = JavaPlatform::create(&mut registry, ()).unwrap();
    assert_eq!(reg.platform_handle, 100);
    assert!(!reg.start_logging);
}

#[test]
fn response_handles_are_per_instance() {
    let mut a: JavaPlatform<(), Recorder> = JavaPlatform::new(1, ());
    let mut b: JavaPlatform<(), Recorder> = JavaPlatform::new(2, ());
    for expected in 0..5i64 {
        let out = a.send_request(1, &[], recorder().0).unwrap();
        assert_eq!(out.response_handle, expected);
        assert_eq!(out.platform_handle, 1);
    }
    let out = b.send_request(1, &[], recorder().0).unwrap();
    assert_eq!(out.response_handle, 0);
    assert_eq!(out.platform_handle, 2);
    for h in 0..5i64 {
        assert!(a.is_pending(h));
    }
    assert!(!a.is_pending(5));
}

#[test]
fn success_reaches_the_callback_once() {
    let mut registry = registry_with_handle_seven();
    let (cb, events) = recorder();
    let out = registry.send_request(7, 5, &[1, 2, 3], cb).unwrap();
    assert_eq!(
        out,
        OutboundRequest { connection_id: 5, payload: vec![1, 2, 3], response_handle: 0, platform_handle: 7 }
    );
    assert!(events.borrow().is_empty());
    let d = native_on_send_request_success(&mut registry, &[9, 9], 7, 0);
    assert_eq!(d, Delivery::Delivered);
    assert_eq!(*events.borrow(), vec![Event::Response(vec![9, 9])]);
    let again = native_on_send_request_success(&mut registry, &[9, 9], 7, 0);
    assert_eq!(again, Delivery::UnmatchedResponse);
    let late_error = native_on_send_request_error(&mut registry, 3, 7, 0);
    assert_eq!(late_error, Delivery::UnmatchedResponse);
    assert_eq!(*events.borrow(), vec![Event::Response(vec![9, 9])]);
}

#[test]
fn error_reaches_the_callback_once() {
    let mut registry = registry_with_handle_seven();
    let (cb, events) = recorder();
    let out = registry.send_request(7, 5, &[1, 2, 3], cb).unwrap();
    assert_eq!((out.connection_id, out.response_handle, out.platform_handle), (5, 0, 7));
    assert_eq!(out.payload, vec![1, 2, 3]);
    let d = native_on_send_request_error(&mut registry, 3, 7, 0);
    assert_eq!(d, Delivery::Delivered);
    assert_eq!(*events.borrow(), vec![Event::Error(3)]);
    let again = native_on_send_request_success(&mut registry, &[9, 9], 7, 0);
    assert_eq!(again, Delivery::UnmatchedResponse);
    assert_eq!(*events.borrow(), vec![Event::Error(3)]);
}

#[test]
fn unknown_platform_invokes_nothing() {
    let mut registry = registry_with_handle_seven();
    let (cb, events) = recorder();
    registry.send_request(3, 1, &[4], cb).unwrap();
    assert_eq!(native_on_send_request_success(&mut registry, &[1], 8, 0), Delivery::UnknownPlatform);
    assert_eq!(native_on_send_request_error(&mut registry, 2, -1, 0), Delivery::UnknownPlatform);
    assert!(events.borrow().is_empty());
    assert!(registry.lookup(3).unwrap().is_pending(0));
    let (cb, _) = recorder();
    assert_eq!(
        registry.send_request(42, 1, &[4], cb),
        Err(SendRequestError::UnknownPlatform { platform_handle: 42 })
    );
}

#[test]
fn unknown_response_handle_is_dropped() {
    let mut registry = registry_with_handle_seven();
    let (cb, events) = recorder();
    registry.send_request(7, 1, &[4], cb).unwrap();
    assert_eq!(native_on_send_request_success(&mut registry, &[1], 7, 1), Delivery::UnmatchedResponse);
    assert_eq!(native_on_send_request_error(&mut registry, 5, 7, -3), Delivery::UnmatchedResponse);
    assert!(events.borrow().is_empty());
    assert!(registry.lookup(7).unwrap().is_pending(0));
}

#[test]
fn many_requests_take_distinct_slots() {
    let mut platform: JavaPlatform<(), Recorder> = JavaPlatform::new(0, ());
    let mut logs = Vec::new();
    for i in 0..16i64 {
        let (cb, events) = recorder();
        let out = platform.send_request(i as i32, &[i as u8], cb).unwrap();
        assert_eq!(out.response_handle, i);
        logs.push(events);
    }
    // Completions arrive in reverse order; each reaches its own callback.
    for i in (0..16i64).rev() {
        assert!(platform.on_send_request_success(&[i as u8, 1], i));
    }
    for (i, events) in logs.iter().enumerate() {
        assert_eq!(*events.borrow(), vec![Event::Response(vec![i as u8, 1])]);
    }
    for i in 0..16i64 {
        assert!(!platform.is_pending(i));
        assert!(!platform.on_send_request_error(1, i));
    }
}

#[test]
fn empty_payloads_are_carried() {
    let mut platform: JavaPlatform<(), Recorder> = JavaPlatform::new(3, ());
    let (cb, events) = recorder();
    let out = platform.send_request(0, &[], cb).unwrap();
    assert!(out.payload.is_empty());
    assert!(platform.on_send_request_success(&[], out.response_handle));
    assert_eq!(*events.borrow(), vec![Event::Response(vec![])]);
}

#[test]
fn response_log_keeps_what_it_receives() {
    let mut log = ResponseLog::new();
    assert_eq!((log.response_count(), log.error_count()), (0, 0));
    log.on_response(vec![9, 9]);
    assert_eq!((log.response_count(), log.error_count()), (1, 0));
    log.on_error(3);
    log.on_error(4);
    assert_eq!((log.response_count(), log.error_count()), (1, 2));
}

#[test]
fn response_log_as_platform_callback() {
    let mut platform: JavaPlatform<(), ResponseLog> = JavaPlatform::new(7, ());
    let out = platform.send_request(5, &[1, 2, 3], ResponseLog::new()).unwrap();
    assert_eq!(out.response_handle, 0);
    assert!(platform.on_send_request_error(3, 0));
    assert!(!platform.on_send_request_success(&[9, 9], 0));
    assert!(!platform.is_pending(0));
}

#[test]
fn handle_generated_before_registration() {
    let mut registry: PlatformRegistry<u32, Recorder> = PlatformRegistry::new();
    let h0 = registry.generate_platform_handle().unwrap();
    assert!(registry.is_issued(h0));
    assert!(!registry.contains(h0));
    assert!(registry.insert_platform_handle(JavaPlatform::new(h0, 1)));
    // A handle whose binding failed is never registered, and not reused.
    let burned = registry.generate_platform_handle().unwrap();
    assert_eq!(burned, 1);
    let h2 = registry.generate_platform_handle().unwrap();
    assert_eq!(h2, 2);
    assert!(!registry.insert_platform_handle(JavaPlatform::new(h2, 3)));
    assert!(!registry.contains(burned));
    assert!(!registry.is_issued(3));
    assert!(!registry.is_issued(-1));
}
