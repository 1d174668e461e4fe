use wgpu_native::error::{default_callback, Callback, DeviceCallback, ErrorCall};
use wgpu_native::native::{Userdata, WGPUDeviceLostReason, WGPUErrorType};
use wgpu_native::{
    default_device_lost_handler, default_uncaptured_error_handler, format_error, handle_error,
    handle_error_fatal, Error, ErrorFilter, ErrorScope, ErrorSinkRaw,
};

type Sink = ErrorSinkRaw<&'static str, u8, u16>;

fn lost_handler() -> DeviceCallback<Option<Callback<u16>>> {
    DeviceCallback {
        callback: Some(Callback::Foreign(500)),
        userdata: Userdata { userdata1: 11, userdata2: 12 },
    }
}

fn sink(filters: &[ErrorFilter]) -> Sink {
    let mut sink: Sink = ErrorSinkRaw::new(lost_handler());
    sink.device = Some(0xd0);
    for filter in filters {
        sink.scopes.push(ErrorScope { error: None, filter: *filter });
    }
    sink
}

fn validation(text: &str) -> Error<&'static str> {
    Error::Validation { source: "v", description: text.to_string() }
}

fn held(sink: &Sink, i: usize) -> Option<String> {
    sink.scopes[i].error.as_ref().map(|e| e.to_string())
}

#[test]
fn error_texts_and_sources() {
    let lost: Error<u8> = Error::DeviceLost { source: 1 };
    let memory: Error<u8> = Error::OutOfMemory { source: 2 };
    let invalid: Error<u8> = Error::Validation { source: 3, description: "bad".to_string() };
    assert_eq!(lost.to_string(), "Device lost");
    assert_eq!(memory.to_string(), "Out of Memory");
    assert_eq!(invalid.to_string(), "bad");
    assert_eq!(lost.source(), Some(&1));
    assert_eq!(memory.source(), Some(&2));
    assert_eq!(invalid.source(), Some(&3));
}

#[test]
fn filters_are_ordered_as_declared() {
    assert!(ErrorFilter::OutOfMemory < ErrorFilter::Validation);
}

#[test]
fn new_sink_has_default_handler_and_no_scope() {
    let sink: Sink = ErrorSinkRaw::new(lost_handler());
    assert!(sink.scopes.is_empty());
    assert!(matches!(sink.uncaptured_handler.callback, Some(Callback::Default)));
    assert_eq!(sink.uncaptured_handler.userdata, Userdata { userdata1: 0, userdata2: 0 });
    assert!(matches!(sink.device_lost_handler.callback, Some(Callback::Foreign(500))));
    assert_eq!(sink.device_lost_handler.userdata.userdata2, 12);
    assert_eq!(sink.device, None);
}

#[test]
fn default_callback_is_the_built_in_one() {
    let handler: DeviceCallback<Option<Callback<u8>>> = default_callback();
    assert!(matches!(handler.callback, Some(Callback::Default)));
    assert_eq!(handler.userdata, Userdata::null());
}

#[test]
fn innermost_scope_with_the_filter_catches() {
    let mut sink = sink(&[
        ErrorFilter::Validation,
        ErrorFilter::Validation,
        ErrorFilter::OutOfMemory,
    ]);
    assert!(sink.handle_error(validation("one")).is_none());
    assert_eq!(held(&sink, 0), None);
    assert_eq!(held(&sink, 1), Some("one".to_string()));
    assert_eq!(held(&sink, 2), None);
}

#[test]
fn first_error_of_a_scope_is_kept() {
    let mut sink = sink(&[ErrorFilter::Validation, ErrorFilter::Validation]);
    assert!(sink.handle_error(validation("one")).is_none());
    assert!(sink.handle_error(validation("two")).is_none());
    assert_eq!(held(&sink, 0), None);
    assert_eq!(held(&sink, 1), Some("one".to_string()));
}

#[test]
fn kinds_of_errors_are_independent() {
    let filters = [ErrorFilter::OutOfMemory, ErrorFilter::Validation];
    let mut a = sink(&filters);
    let mut b = sink(&filters);
    a.handle_error(validation("v"));
    a.handle_error(Error::OutOfMemory { source: "m" });
    b.handle_error(Error::OutOfMemory { source: "m" });
    b.handle_error(validation("v"));
    for i in 0..2 {
        assert_eq!(held(&a, i), held(&b, i));
    }
    assert_eq!(held(&a, 0), Some("Out of Memory".to_string()));
    assert_eq!(held(&a, 1), Some("v".to_string()));
}

#[test]
fn uncaptured_validation_error_is_reported() {
    let mut sink = sink(&[ErrorFilter::OutOfMemory]);
    sink.uncaptured_handler = DeviceCallback {
        callback: Some(Callback::Foreign(7)),
        userdata: Userdata { userdata1: 21, userdata2: 22 },
    };
    match sink.handle_error(validation("nobody")) {
        Some(ErrorCall::Uncaptured { callback, device, typ, message, userdata }) => {
            assert!(matches!(callback, Callback::Foreign(7)));
            assert_eq!(device, 0xd0);
            assert_eq!(typ, WGPUErrorType::Validation);
            assert_eq!(message, "nobody");
            assert_eq!(userdata, Userdata { userdata1: 21, userdata2: 22 });
        }
        _ => panic!("expected a call"),
    }
    assert_eq!(held(&sink, 0), None);
}

#[test]
fn uncaptured_memory_error_goes_to_the_default_handler() {
    let mut sink = sink(&[ErrorFilter::Validation]);
    match sink.handle_error(Error::OutOfMemory { source: "m" }) {
        Some(ErrorCall::Uncaptured { callback, typ, message, .. }) => {
            assert!(matches!(callback, Callback::Default));
            assert_eq!(typ, WGPUErrorType::OutOfMemory);
            assert_eq!(message, "Out of Memory");
        }
        _ => panic!("expected a call"),
    }
}

#[test]
fn uncaptured_error_without_handler_is_dropped() {
    let mut sink = sink(&[]);
    sink.uncaptured_handler.callback = None;
    sink.device = None;
    assert!(sink.handle_error(validation("x")).is_none());
}

#[test]
fn lost_device_is_reported_past_all_scopes() {
    let mut sink = sink(&[ErrorFilter::Validation, ErrorFilter::OutOfMemory]);
    match sink.handle_error(Error::DeviceLost { source: "gone" }) {
        Some(ErrorCall::DeviceLost { handler, device, reason, message, userdata }) => {
            assert!(matches!(handler, Callback::Foreign(500)));
            assert_eq!(device, 0xd0);
            assert_eq!(reason, WGPUDeviceLostReason::Destroyed);
            assert_eq!(message, "Device lost");
            assert_eq!(userdata, Userdata { userdata1: 11, userdata2: 12 });
        }
        _ => panic!("expected a call"),
    }
    assert_eq!(held(&sink, 0), None);
    assert_eq!(held(&sink, 1), None);
}

#[test]
fn lost_device_without_handler_is_dropped() {
    let mut sink = sink(&[]);
    sink.device_lost_handler.callback = None;
    sink.device = None;
    assert!(sink.handle_error(Error::DeviceLost { source: "gone" }).is_none());
}

#[test]
fn opened_scope_shields_the_outer_one() {
    let mut sink = sink(&[ErrorFilter::Validation]);
    sink.scopes.push(ErrorScope { error: None, filter: ErrorFilter::Validation });
    sink.handle_error(validation("inner"));
    let inner = sink.scopes.pop().unwrap();
    assert_eq!(inner.error.unwrap().to_string(), "inner");
    assert_eq!(held(&sink, 0), None);
    sink.handle_error(validation("outer"));
    assert_eq!(held(&sink, 0), Some("outer".to_string()));
}

#[test]
fn reports_do_not_show_the_cause() {
    assert_eq!(format_error(&"cause"), "Validation Error\n\nCaused by:\n");
    assert_eq!(
        handle_error_fatal("cause", "wgpuDevicePoll"),
        "Error in wgpuDevicePoll: Validation Error\n\nCaused by:\n"
    );
}

#[test]
fn default_handlers_panic_with_the_message() {
    assert_eq!(
        default_uncaptured_error_handler(Some("boom")),
        "wgpu uncaptured error:\nboom\n"
    );
    assert_eq!(default_uncaptured_error_handler(None), "wgpu uncaptured error:\n\n");
    assert_eq!(default_device_lost_handler(Some("gone")), "wgpu device lost error:\ngone\n");
    assert_eq!(default_device_lost_handler(None), "wgpu device lost error:\n\n");
}

#[test]
fn handle_error_records_nothing() {
    let mut sink = sink(&[ErrorFilter::Validation]);
    handle_error(&mut sink, "cause", Some("label"), "wgpuTextureCreateView");
    assert_eq!(held(&sink, 0), None);
    assert_eq!(sink.device, Some(0xd0));
}

#[test]
fn handlers_are_needed_for_what_no_scope_catches() {
    let memory: Error<&'static str> = Error::OutOfMemory { source: "m" };
    let lost: Error<&'static str> = Error::DeviceLost { source: "l" };
    let mut guarded = sink(&[ErrorFilter::Validation]);
    assert!(!guarded.must_call_handler(&validation("caught")));
    assert!(guarded.must_call_handler(&memory));
    assert!(guarded.must_call_handler(&lost));
    guarded.uncaptured_handler.callback = None;
    guarded.device_lost_handler.callback = None;
    assert!(!guarded.must_call_handler(&memory));
    assert!(!guarded.must_call_handler(&lost));
}
