use hyprland_ipc::decoder::EventDecoder;
use hyprland_ipc::{Error, Event};
use tokio_util::bytes::BytesMut;

fn s(x: &str) -> String {
    x.to_string()
}

#[test]
fn single_field_events_keep_payload() {
    assert_eq!(
        Event::parse("workspace", "1").unwrap(),
        Event::Workspace { workspace_name: s("1") }
    );
    assert_eq!(
        Event::parse("monitoradded", "DP-1").unwrap(),
        Event::MonitorAdded { monitor_name: s("DP-1") }
    );
    assert_eq!(
        Event::parse("closewindow", "a,b").unwrap(),
        Event::CloseWindow { window_address: s("a,b") }
    );
    assert_eq!(
        Event::parse("submap", "").unwrap(),
        Event::Submap { submap_name: s("") }
    );
}

#[test]
fn two_field_events_split_at_first_comma() {
    assert_eq!(
        Event::parse("focusedmon", "a,b,c").unwrap(),
        Event::FocusedMon { mon_name: s("a"), workspace_name: s("b,c") }
    );
    assert_eq!(
        Event::parse("activewindow", "kitty,vim: a, b").unwrap(),
        Event::ActiveWindow { window_class: s("kitty"), window_title: s("vim: a, b") }
    );
    assert_eq!(
        Event::parse("renameworkspace", "3,,").unwrap(),
        Event::RenameWorkspace { workspace_id: s("3"), new_name: s(",") }
    );
    assert_eq!(
        Event::parse("screencast", "1,0").unwrap(),
        Event::Screencast { state: s("1"), owner: s("0") }
    );
}

#[test]
fn open_window_keeps_commas_in_title() {
    assert_eq!(
        Event::parse("openwindow", "addr,ws,cls,My, Title").unwrap(),
        Event::OpenWindow {
            window_address: s("addr"),
            workspace_name: s("ws"),
            window_class: s("cls"),
            window_title: s("My, Title"),
        }
    );
    assert_eq!(
        Event::parse("openwindow", "a,b,c,").unwrap(),
        Event::OpenWindow {
            window_address: s("a"),
            workspace_name: s("b"),
            window_class: s("c"),
            window_title: s(""),
        }
    );
    assert!(matches!(Event::parse("openwindow", "a,b,c"), Err(Error::MalformedInput)));
}

#[test]
fn missing_comma_is_malformed() {
    for name in [
        "focusedmon",
        "activewindow",
        "moveworkspace",
        "renameworkspace",
        "activespecial",
        "activelayout",
        "openwindow",
        "movewindow",
        "changefloatingmode",
        "minimize",
        "screencast",
    ] {
        assert!(matches!(Event::parse(name, "nocomma"), Err(Error::MalformedInput)));
    }
}

#[test]
fn flag_fields_for_every_flag_event() {
    assert_eq!(Event::parse("fullscreen", "0").unwrap(), Event::Fullscreen(false));
    assert_eq!(Event::parse("fullscreen", "1").unwrap(), Event::Fullscreen(true));
    assert_eq!(Event::parse("fullscreen", "2").unwrap(), Event::Fullscreen(true));
    assert!(matches!(Event::parse("fullscreen", "x"), Err(Error::MalformedInput)));
    assert_eq!(Event::parse("ignoregrouplock", "0").unwrap(), Event::IgnoreGroupLock(false));
    assert_eq!(Event::parse("ignoregrouplock", "2").unwrap(), Event::IgnoreGroupLock(true));
    assert!(matches!(Event::parse("ignoregrouplock", "x"), Err(Error::MalformedInput)));
    assert_eq!(Event::parse("lockgroups", "1").unwrap(), Event::LockGroups(true));
    assert!(matches!(Event::parse("lockgroups", "x"), Err(Error::MalformedInput)));
    assert_eq!(
        Event::parse("changefloatingmode", "0x1,0").unwrap(),
        Event::ChangeFloatingMode { window_address: s("0x1"), floating: false }
    );
    assert_eq!(
        Event::parse("changefloatingmode", "0x1,2").unwrap(),
        Event::ChangeFloatingMode { window_address: s("0x1"), floating: true }
    );
    assert!(matches!(
        Event::parse("changefloatingmode", "0x1,x"),
        Err(Error::MalformedInput)
    ));
    assert_eq!(
        Event::parse("minimize", "0x2,1").unwrap(),
        Event::Minimize { window_address: s("0x2"), minimized: true }
    );
    assert!(matches!(Event::parse("minimize", "0x2,x"), Err(Error::MalformedInput)));
}

#[test]
fn flag_field_edges() {
    assert_eq!(Event::parse("fullscreen", "+1").unwrap(), Event::Fullscreen(true));
    assert_eq!(Event::parse("fullscreen", "255").unwrap(), Event::Fullscreen(true));
    assert_eq!(Event::parse("fullscreen", "000").unwrap(), Event::Fullscreen(false));
    assert!(matches!(Event::parse("fullscreen", "256"), Err(Error::MalformedInput)));
    assert!(matches!(Event::parse("fullscreen", ""), Err(Error::MalformedInput)));
    assert!(matches!(Event::parse("fullscreen", "-0"), Err(Error::MalformedInput)));
    assert!(matches!(Event::parse("fullscreen", " 1"), Err(Error::MalformedInput)));
}

#[test]
fn unknown_event_name() {
    assert!(matches!(EventDecoder::decode_line("notreal>>x"), Err(Error::UnknownEvent)));
    assert!(matches!(Event::parse("Workspace", "1"), Err(Error::UnknownEvent)));
}

#[test]
fn frame_split_at_first_separator() {
    assert_eq!(
        EventDecoder::decode_line("activewindow>>a>>b,c").unwrap(),
        Event::ActiveWindow { window_class: s("a>>b"), window_title: s("c") }
    );
    assert!(matches!(EventDecoder::decode_line("workspace1"), Err(Error::MalformedInput)));
}

#[test]
fn frame_assembled_across_chunks() {
    let mut decoder = EventDecoder::new();
    let mut buf = BytesMut::from("worksp");
    assert!(matches!(decoder.decode(&mut buf), Ok(None)));
    assert_eq!(&buf[..], b"worksp");
    buf.extend_from_slice(b"ace>>1\n");
    let event = decoder.decode(&mut buf).unwrap().unwrap();
    assert_eq!(event, Event::Workspace { workspace_name: s("1") });
    assert!(buf.is_empty());
    assert!(matches!(decoder.decode(&mut buf), Ok(None)));
}

#[test]
fn stream_of_one_fullscreen_event_then_end() {
    let mut decoder = EventDecoder::new();
    let mut buf = BytesMut::from("fullscreen>>1\n");
    assert_eq!(decoder.decode(&mut buf).unwrap(), Some(Event::Fullscreen(true)));
    assert!(matches!(decoder.decode(&mut buf), Ok(None)));
    assert!(buf.is_empty());
}

#[test]
fn several_frames_in_one_buffer() {
    let mut decoder = EventDecoder::new();
    let mut buf = BytesMut::from("submap>>resize\r\nbogus\nurgent>>0x");
    assert_eq!(
        decoder.decode(&mut buf).unwrap(),
        Some(Event::Submap { submap_name: s("resize") })
    );
    assert!(matches!(decoder.decode(&mut buf), Err(Error::MalformedInput)));
    assert!(matches!(decoder.decode(&mut buf), Ok(None)));
    assert_eq!(&buf[..], b"urgent>>0x");
}

#[test]
fn invalid_utf8_line_is_a_framing_error() {
    let mut decoder = EventDecoder::new();
    let mut buf = BytesMut::from(&b"workspace>>\xff\nworkspace>>2\n"[..]);
    assert!(matches!(decoder.decode(&mut buf), Err(Error::LinesCodec(_))));
    assert_eq!(
        decoder.decode(&mut buf).unwrap(),
        Some(Event::Workspace { workspace_name: s("2") })
    );
}
