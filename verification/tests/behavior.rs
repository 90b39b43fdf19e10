use panic_ext::downcast_payload;
use panic_ext::panic_details;
use panic_ext::panic_message;
use panic_ext::u32_to_string;
use panic_ext::Location;
use panic_ext::Payload;

fn loc(file: &str, line: u32, column: u32) -> Location {
    Location { file: file.to_string(), line, column }
}

#[test]
fn u32_to_string_values() {
    assert_eq!(u32_to_string(0), "0");
    assert_eq!(u32_to_string(7), "7");
    assert_eq!(u32_to_string(10), "10");
    assert_eq!(u32_to_string(105), "105");
    assert_eq!(u32_to_string(4294967295), "4294967295");
}

#[test]
fn location_renders_file_line_column() {
    assert_eq!(loc("src/lib.rs", 7, 5).render(), "src/lib.rs:7:5");
    assert_eq!(loc("a", 0, 0).render(), "a:0:0");
}

#[test]
fn static_text_message() {
    let payload = Payload::StaticText("just static string".to_string());
    let message = downcast_payload(&payload);
    assert_eq!(message.render(), "just static string");
}

#[test]
fn owned_text_message() {
    let payload = Payload::OwnedText(format!("string with argument={}", 11));
    let message = downcast_payload(&payload);
    assert_eq!(message.render(), "string with argument=11");
}

#[test]
fn unknown_payload_fallback() {
    let payload = Payload::Opaque;
    let message = downcast_payload(&payload);
    assert_eq!(message.render(), "fault occurred");
}

#[test]
fn message_from_any_carrier() {
    let payload = Payload::StaticText("abc".to_string());
    assert_eq!(panic_message(&payload).render(), "abc");
    let info = panic_ext::PanicInfo {
        location: Some(loc("src/lib.rs", 3, 1)),
        payload: Payload::OwnedText("def".to_string()),
    };
    assert_eq!(panic_message(&info).render(), "def");
    let boxed: Box<Payload> = Box::new(Payload::Opaque);
    assert_eq!(panic_message(&boxed).render(), "fault occurred");
}

#[test]
fn raw_carrier_uses_call_site() {
    let payload = Payload::StaticText("oops".to_string());
    let call_site = loc("tests/behavior.rs", 26, 39);
    let details = panic_details(&payload, call_site);
    assert_eq!(details.location.render(), "tests/behavior.rs:26:39");
}

#[test]
fn owned_carrier_uses_call_site() {
    let boxed: Box<Payload> = Box::new(Payload::OwnedText("oops".to_string()));
    let call_site = loc("tests/behavior.rs", 49, 39);
    let details = panic_details(&boxed, call_site);
    assert_eq!(details.location.render(), "tests/behavior.rs:49:39");
}

#[test]
fn handle_uses_recorded_location() {
    let info = panic_ext::PanicInfo {
        location: Some(loc("src/lib.rs", 7, 5)),
        payload: Payload::StaticText("boom".to_string()),
    };
    let call_site = loc("tests/behavior.rs", 90, 1);
    let details = panic_details(&info, call_site);
    assert_eq!(details.location.render(), "src/lib.rs:7:5");
}

#[test]
fn handle_without_location_uses_call_site() {
    let info = panic_ext::PanicInfo {
        location: None,
        payload: Payload::StaticText("boom".to_string()),
    };
    let call_site = loc("tests/behavior.rs", 101, 1);
    let details = panic_details(&info, call_site);
    assert_eq!(details.location.render(), "tests/behavior.rs:101:1");
}

#[test]
fn render_format() {
    let payload = Payload::OwnedText("string with argument=11".to_string());
    let details = panic_details(&payload, loc("tests/behavior.rs", 49, 39));
    assert_eq!(details.render(), "tests/behavior.rs:49:39: string with argument=11");
}

#[test]
fn render_fallback_format() {
    let payload = Payload::Opaque;
    let details = panic_details(&payload, loc("t.rs", 1, 2));
    assert_eq!(details.render(), "t.rs:1:2: fault occurred");
}

#[test]
fn end_to_end_static_text() {
    // A panic is raised with static text at src/lib.rs:7:5. The hook observes
    // it through the live handle, which records the raise site; the
    // containment boundary later observes only the bare payload and supplies
    // its own call-site location.
    let raise_site = loc("src/lib.rs", 7, 5);
    let info = panic_ext::PanicInfo {
        location: Some(raise_site),
        payload: Payload::StaticText("just static string".to_string()),
    };
    let hook_render = panic_details(&info, loc("tests/behavior.rs", 120, 1)).render();
    assert_eq!(hook_render, "src/lib.rs:7:5: just static string");

    let caught = Payload::StaticText("just static string".to_string());
    let catch_render = panic_details(&caught, loc("tests/behavior.rs", 126, 39)).render();
    assert_eq!(catch_render, "tests/behavior.rs:126:39: just static string");

    assert_ne!(hook_render, catch_render);
    assert!(hook_render.ends_with(": just static string"));
    assert!(catch_render.ends_with(": just static string"));
}

#[test]
fn details_render_idempotent() {
    let info = panic_ext::PanicInfo {
        location: Some(loc("src/lib.rs", 11, 5)),
        payload: Payload::OwnedText("twice".to_string()),
    };
    let first = panic_details(&info, loc("tests/behavior.rs", 140, 1)).render();
    let second = panic_details(&info, loc("tests/behavior.rs", 141, 1)).render();
    assert_eq!(first, second);
}

#[test]
fn duplicate_location_is_equal() {
    let original = loc("src/lib.rs", 3, 4);
    let copy = original.duplicate();
    assert_eq!(copy.render(), original.render());
}
