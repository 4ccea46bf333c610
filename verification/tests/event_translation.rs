//! Translation of raw observer notifications into wire events: every
//! variant maps to its counterpart, paths travel verbatim, and a pathless
//! observer failure gets the sentinel path text.

use monitor::event::RawEvent;
use monitor::event::WireEvent;
use monitor::event::translate;

#[test]
fn create_maps_to_create_with_same_path() {
    let w = translate(RawEvent::Create { path: "/tmp/x/a.txt".to_string() });
    assert_eq!(w, WireEvent::Create { path: "/tmp/x/a.txt".to_string() });
}

#[test]
fn write_maps_to_write_with_same_path() {
    let w = translate(RawEvent::Write { path: "/tmp/x/a.txt".to_string() });
    assert_eq!(w, WireEvent::Write { path: "/tmp/x/a.txt".to_string() });
}

#[test]
fn notice_write_maps_to_notice_write() {
    let w = translate(RawEvent::NoticeWrite { path: "/d/f".to_string() });
    assert_eq!(w, WireEvent::NoticeWrite { path: "/d/f".to_string() });
}

#[test]
fn notice_remove_maps_to_notice_remove() {
    let w = translate(RawEvent::NoticeRemove { path: "/d/f".to_string() });
    assert_eq!(w, WireEvent::NoticeRemove { path: "/d/f".to_string() });
}

#[test]
fn chmod_maps_to_chmod() {
    let w = translate(RawEvent::Chmod { path: "/d/f".to_string() });
    assert_eq!(w, WireEvent::Chmod { path: "/d/f".to_string() });
}

#[test]
fn remove_maps_to_remove() {
    let w = translate(RawEvent::Remove { path: "/d/f".to_string() });
    assert_eq!(w, WireEvent::Remove { path: "/d/f".to_string() });
}

#[test]
fn rename_keeps_both_endpoints() {
    let w = translate(RawEvent::Rename {
        original: "/tmp/x/a.txt".to_string(),
        new_name: "/tmp/x/b.txt".to_string(),
    });
    assert_eq!(
        w,
        WireEvent::Rename {
            original: "/tmp/x/a.txt".to_string(),
            new_name: "/tmp/x/b.txt".to_string(),
        }
    );
}

#[test]
fn rescan_maps_to_rescan() {
    let w = translate(RawEvent::Rescan);
    assert_eq!(w, WireEvent::Rescan);
}

#[test]
fn observer_failure_keeps_message_and_path() {
    let w = translate(RawEvent::ObserverFailed {
        msg: "watch descriptor gone".to_string(),
        path: Some("/tmp/x".to_string()),
    });
    assert_eq!(
        w,
        WireEvent::Error {
            msg: "watch descriptor gone".to_string(),
            path: Some("/tmp/x".to_string()),
        }
    );
}

#[test]
fn pathless_observer_failure_gets_sentinel_path() {
    let w = translate(RawEvent::ObserverFailed {
        msg: "watch descriptor gone".to_string(),
        path: None,
    });
    assert_eq!(
        w,
        WireEvent::Error {
            msg: "watch descriptor gone".to_string(),
            path: Some("Unknown Path!".to_string()),
        }
    );
}

#[test]
fn empty_path_travels_verbatim() {
    let w = translate(RawEvent::Create { path: String::new() });
    assert_eq!(w, WireEvent::Create { path: String::new() });
}

#[test]
fn describe_renders_a_create_line() {
    let w = WireEvent::Create { path: "/tmp/x/a.txt".to_string() };
    assert_eq!(w.describe(), "[Create]: /tmp/x/a.txt");
}

#[test]
fn describe_renders_both_rename_endpoints() {
    let w = WireEvent::Rename {
        original: "/tmp/x/a.txt".to_string(),
        new_name: "/tmp/x/b.txt".to_string(),
    };
    assert_eq!(w.describe(), "[Rename]: /tmp/x/a.txt -> /tmp/x/b.txt");
}

#[test]
fn describe_renders_a_rescan_line() {
    assert_eq!(WireEvent::Rescan.describe(), "[Rescan]");
}

#[test]
fn describe_renders_an_error_without_path_as_unknown() {
    let w = WireEvent::Error { msg: "gone".to_string(), path: None };
    assert_eq!(w.describe(), "[ERROR]: gone - Unknown");
}

#[test]
fn describe_renders_an_error_with_its_path() {
    let w = WireEvent::Error { msg: "gone".to_string(), path: Some("/tmp/x".to_string()) };
    assert_eq!(w.describe(), "[ERROR]: gone - /tmp/x");
}
