//! The event grammar: an event name and its raw payload to a typed event.
use vstd::prelude::*;

use crate::error::Error;
use crate::text::{
    all_digits, digits_value, is_first_occurrence, lemma_first_occurrence_unique, occurs_at, parse_flag,
    parse_flag_spec, same_text, split_first, split_once,
};

verus! {

/// One notification pushed on the event socket.
#[derive(Debug, Clone, PartialEq, Eq)]
pub enum Event {
    Workspace {
        workspace_name: String,
    },
    FocusedMon {
        mon_name: String,
        workspace_name: String,
    },
    ActiveWindow {
        window_class: String,
        window_title: String,
    },
    ActiveWindowV2 {
        window_address: String,
    },
    Fullscreen(bool),
    MonitorRemoved {
        monitor_name: String,
    },
    MonitorAdded {
        monitor_name: String,
    },
    CreateWorkspace {
        workspace_name: String,
    },
    DestroyWorkspace {
        workspace_name: String,
    },
    MoveWorkspace {
        workspace_name: String,
        mon_name: String,
    },
    RenameWorkspace {
        workspace_id: String,
        new_name: String,
    },
    ActiveSpecial {
        workspace_name: String,
        mon_name: String,
    },
    ActiveLayout {
        keyboard_name: String,
        layout_name: String,
    },
    OpenWindow {
        window_address: String,
        workspace_name: String,
        window_class: String,
        window_title: String,
    },
    CloseWindow {
        window_address: String,
    },
    MoveWindow {
        window_address: String,
        workspace_name: String,
    },
    OpenLayer {
        namespace: String,
    },
    CloseLayer {
        namespace: String,
    },
    Submap {
        submap_name: String,
    },
    ChangeFloatingMode {
        window_address: String,
        floating: bool,
    },
    Urgent {
        window_address: String,
    },
    Minimize {
        window_address: String,
        minimized: bool,
    },
    Screencast {
        state: String,
        owner: String,
    },
    WindowTitle {
        window_address: String,
    },
    IgnoreGroupLock(bool),
    LockGroups(bool),
}

/// The mathematical model of an [`Event`]: each text field as its characters.
pub ghost enum EventModel {
    Workspace {
        workspace_name: Seq<char>,
    },
    FocusedMon {
        mon_name: Seq<char>,
        workspace_name: Seq<char>,
    },
    ActiveWindow {
        window_class: Seq<char>,
        window_title: Seq<char>,
    },
    ActiveWindowV2 {
        window_address: Seq<char>,
    },
    Fullscreen(bool),
    MonitorRemoved {
        monitor_name: Seq<char>,
    },
    MonitorAdded {
        monitor_name: Seq<char>,
    },
    CreateWorkspace {
        workspace_name: Seq<char>,
    },
    DestroyWorkspace {
        workspace_name: Seq<char>,
    },
    MoveWorkspace {
        workspace_name: Seq<char>,
        mon_name: Seq<char>,
    },
    RenameWorkspace {
        workspace_id: Seq<char>,
        new_name: Seq<char>,
    },
    ActiveSpecial {
        workspace_name: Seq<char>,
        mon_name: Seq<char>,
    },
    ActiveLayout {
        keyboard_name: Seq<char>,
        layout_name: Seq<char>,
    },
    OpenWindow {
        window_address: Seq<char>,
        workspace_name: Seq<char>,
        window_class: Seq<char>,
        window_title: Seq<char>,
    },
    CloseWindow {
        window_address: Seq<char>,
    },
    MoveWindow {
        window_address: Seq<char>,
        workspace_name: Seq<char>,
    },
    OpenLayer {
        namespace: Seq<char>,
    },
    CloseLayer {
        namespace: Seq<char>,
    },
    Submap {
        submap_name: Seq<char>,
    },
    ChangeFloatingMode {
        window_address: Seq<char>,
        floating: bool,
    },
    Urgent {
        window_address: Seq<char>,
    },
    Minimize {
        window_address: Seq<char>,
        minimized: bool,
    },
    Screencast {
        state: Seq<char>,
        owner: Seq<char>,
    },
    WindowTitle {
        window_address: Seq<char>,
    },
    IgnoreGroupLock(bool),
    LockGroups(bool),
}

impl View for Event {
    type V = EventModel;

    open spec fn view(&self) -> EventModel {
        match self {
            Event::Workspace { workspace_name } => EventModel::Workspace { workspace_name: workspace_name@ },
            Event::FocusedMon { mon_name, workspace_name } => EventModel::FocusedMon { mon_name: mon_name@, workspace_name: workspace_name@ },
            Event::ActiveWindow { window_class, window_title } => EventModel::ActiveWindow { window_class: window_class@, window_title: window_title@ },
            Event::ActiveWindowV2 { window_address } => EventModel::ActiveWindowV2 { window_address: window_address@ },
            Event::Fullscreen(b) => EventModel::Fullscreen(*b),
            Event::MonitorRemoved { monitor_name } => EventModel::MonitorRemoved { monitor_name: monitor_name@ },
            Event::MonitorAdded { monitor_name } => EventModel::MonitorAdded { monitor_name: monitor_name@ },
            Event::CreateWorkspace { workspace_name } => EventModel::CreateWorkspace { workspace_name: workspace_name@ },
            Event::DestroyWorkspace { workspace_name } => EventModel::DestroyWorkspace { workspace_name: workspace_name@ },
            Event::MoveWorkspace { workspace_name, mon_name } => EventModel::MoveWorkspace { workspace_name: workspace_name@, mon_name: mon_name@ },
            Event::RenameWorkspace { workspace_id, new_name } => EventModel::RenameWorkspace { workspace_id: workspace_id@, new_name: new_name@ },
            Event::ActiveSpecial { workspace_name, mon_name } => EventModel::ActiveSpecial { workspace_name: workspace_name@, mon_name: mon_name@ },
            Event::ActiveLayout { keyboard_name, layout_name } => EventModel::ActiveLayout { keyboard_name: keyboard_name@, layout_name: layout_name@ },
            Event::OpenWindow { window_address, workspace_name, window_class, window_title } => EventModel::OpenWindow { window_address: window_address@, workspace_name: workspace_name@, window_class: window_class@, window_title: window_title@ },
            Event::CloseWindow { window_address } => EventModel::CloseWindow { window_address: window_address@ },
            Event::MoveWindow { window_address, workspace_name } => EventModel::MoveWindow { window_address: window_address@, workspace_name: workspace_name@ },
            Event::OpenLayer { namespace } => EventModel::OpenLayer { namespace: namespace@ },
            Event::CloseLayer { namespace } => EventModel::CloseLayer { namespace: namespace@ },
            Event::Submap { submap_name } => EventModel::Submap { submap_name: submap_name@ },
            Event::ChangeFloatingMode { window_address, floating } => EventModel::ChangeFloatingMode { window_address: window_address@, floating: *floating },
            Event::Urgent { window_address } => EventModel::Urgent { window_address: window_address@ },
            Event::Minimize { window_address, minimized } => EventModel::Minimize { window_address: window_address@, minimized: *minimized },
            Event::Screencast { state, owner } => EventModel::Screencast { state: state@, owner: owner@ },
            Event::WindowTitle { window_address } => EventModel::WindowTitle { window_address: window_address@ },
            Event::IgnoreGroupLock(b) => EventModel::IgnoreGroupLock(*b),
            Event::LockGroups(b) => EventModel::LockGroups(*b),
        }
    }
}

/// Payload of a two-field event: cut at the first comma, the rest is the second field.
pub open spec fn two_fields_spec(data: Seq<char>) -> Result<(Seq<char>, Seq<char>), Error> {
    match split_first(data, ","@) {
        Some(p) => Ok(p),
        None => Err(Error::MalformedInput),
    }
}

/// Payload of a four-field event: at most three cuts from the left, the rest is
/// the last field.
pub open spec fn four_fields_spec(data: Seq<char>) -> Result<
    (Seq<char>, Seq<char>, Seq<char>, Seq<char>),
    Error,
> {
    match split_first(data, ","@) {
        Some((a, r1)) => match split_first(r1, ","@) {
            Some((b, r2)) => match split_first(r2, ","@) {
                Some((c, d)) => Ok((a, b, c, d)),
                None => Err(Error::MalformedInput),
            },
            None => Err(Error::MalformedInput),
        },
        None => Err(Error::MalformedInput),
    }
}

/// A flag field: a byte value, zero meaning false.
pub open spec fn flag_spec(data: Seq<char>) -> Result<bool, Error> {
    match parse_flag_spec(data) {
        Some(b) => Ok(b),
        None => Err(Error::MalformedInput),
    }
}

/// Payload of a two-field event whose second field is a flag.
pub open spec fn field_and_flag_spec(data: Seq<char>) -> Result<(Seq<char>, bool), Error> {
    match two_fields_spec(data) {
        Ok((a, b)) => match flag_spec(b) {
            Ok(f) => Ok((a, f)),
            Err(e) => Err(e),
        },
        Err(e) => Err(e),
    }
}

/// The event that the name `name` with payload `data` denotes.
pub open spec fn parse_spec(name: Seq<char>, data: Seq<char>) -> Result<EventModel, Error> {
    if name == "workspace"@ {
        Ok(EventModel::Workspace { workspace_name: data })
    } else if name == "focusedmon"@ {
        match two_fields_spec(data) {
            Ok((a, b)) => Ok(EventModel::FocusedMon { mon_name: a, workspace_name: b }),
            Err(e) => Err(e),
        }
    } else if name == "activewindow"@ {
        match two_fields_spec(data) {
            Ok((a, b)) => Ok(EventModel::ActiveWindow { window_class: a, window_title: b }),
            Err(e) => Err(e),
        }
    } else if name == "activewindowv2"@ {
        Ok(EventModel::ActiveWindowV2 { window_address: data })
    } else if name == "fullscreen"@ {
        match flag_spec(data) {
            Ok(b) => Ok(EventModel::Fullscreen(b)),
            Err(e) => Err(e),
        }
    } else if name == "monitorremoved"@ {
        Ok(EventModel::MonitorRemoved { monitor_name: data })
    } else if name == "monitoradded"@ {
        Ok(EventModel::MonitorAdded { monitor_name: data })
    } else if name == "createworkspace"@ {
        Ok(EventModel::CreateWorkspace { workspace_name: data })
    } else if name == "destroyworkspace"@ {
        Ok(EventModel::DestroyWorkspace { workspace_name: data })
    } else if name == "moveworkspace"@ {
        match two_fields_spec(data) {
            Ok((a, b)) => Ok(EventModel::MoveWorkspace { workspace_name: a, mon_name: b }),
            Err(e) => Err(e),
        }
    } else if name == "renameworkspace"@ {
        match two_fields_spec(data) {
            Ok((a, b)) => Ok(EventModel::RenameWorkspace { workspace_id: a, new_name: b }),
            Err(e) => Err(e),
        }
    } else if name == "activespecial"@ {
        match two_fields_spec(data) {
            Ok((a, b)) => Ok(EventModel::ActiveSpecial { workspace_name: a, mon_name: b }),
            Err(e) => Err(e),
        }
    } else if name == "activelayout"@ {
        match two_fields_spec(data) {
            Ok((a, b)) => Ok(EventModel::ActiveLayout { keyboard_name: a, layout_name: b }),
            Err(e) => Err(e),
        }
    } else if name == "openwindow"@ {
        match four_fields_spec(data) {
            Ok((a, b, c, d)) => Ok(
                EventModel::OpenWindow {
                    window_address: a,
                    workspace_name: b,
                    window_class: c,
                    window_title: d,
                },
            ),
            Err(e) => Err(e),
        }
    } else if name == "closewindow"@ {
        Ok(EventModel::CloseWindow { window_address: data })
    } else if name == "movewindow"@ {
        match two_fields_spec(data) {
            Ok((a, b)) => Ok(EventModel::MoveWindow { window_address: a, workspace_name: b }),
            Err(e) => Err(e),
        }
    } else if name == "openlayer"@ {
        Ok(EventModel::OpenLayer { namespace: data })
    } else if name == "closelayer"@ {
        Ok(EventModel::CloseLayer { namespace: data })
    } else if name == "submap"@ {
        Ok(EventModel::Submap { submap_name: data })
    } else if name == "changefloatingmode"@ {
        match field_and_flag_spec(data) {
            Ok((a, b)) => Ok(EventModel::ChangeFloatingMode { window_address: a, floating: b }),
            Err(e) => Err(e),
        }
    } else if name == "urgent"@ {
        Ok(EventModel::Urgent { window_address: data })
    } else if name == "minimize"@ {
        match field_and_flag_spec(data) {
            Ok((a, b)) => Ok(EventModel::Minimize { window_address: a, minimized: b }),
            Err(e) => Err(e),
        }
    } else if name == "screencast"@ {
        match two_fields_spec(data) {
            Ok((a, b)) => Ok(EventModel::Screencast { state: a, owner: b }),
            Err(e) => Err(e),
        }
    } else if name == "windowtitle"@ {
        Ok(EventModel::WindowTitle { window_address: data })
    } else if name == "ignoregrouplock"@ {
        match flag_spec(data) {
            Ok(b) => Ok(EventModel::IgnoreGroupLock(b)),
            Err(e) => Err(e),
        }
    } else if name == "lockgroups"@ {
        match flag_spec(data) {
            Ok(b) => Ok(EventModel::LockGroups(b)),
            Err(e) => Err(e),
        }
    } else {
        Err(Error::UnknownEvent)
    }
}

/// The names of the events that this library knows.
pub open spec fn is_known_name(name: Seq<char>) -> bool {
    name == "workspace"@
        || name == "focusedmon"@
        || name == "activewindow"@
        || name == "activewindowv2"@
        || name == "fullscreen"@
        || name == "monitorremoved"@
        || name == "monitoradded"@
        || name == "createworkspace"@
        || name == "destroyworkspace"@
        || name == "moveworkspace"@
        || name == "renameworkspace"@
        || name == "activespecial"@
        || name == "activelayout"@
        || name == "openwindow"@
        || name == "closewindow"@
        || name == "movewindow"@
        || name == "openlayer"@
        || name == "closelayer"@
        || name == "submap"@
        || name == "changefloatingmode"@
        || name == "urgent"@
        || name == "minimize"@
        || name == "screencast"@
        || name == "windowtitle"@
        || name == "ignoregrouplock"@
        || name == "lockgroups"@
}

/// The events whose payload holds at least two comma-separated fields.
pub open spec fn needs_comma(name: Seq<char>) -> bool {
    name == "focusedmon"@
        || name == "activewindow"@
        || name == "moveworkspace"@
        || name == "renameworkspace"@
        || name == "activespecial"@
        || name == "activelayout"@
        || name == "openwindow"@
        || name == "movewindow"@
        || name == "changefloatingmode"@
        || name == "minimize"@
        || name == "screencast"@
}

/// `s` holds no comma.
pub open spec fn comma_free(s: Seq<char>) -> bool {
    forall|i: int| 0 <= i < s.len() ==> s[i] != ','
}

proof fn lemma_no_comma_no_split(s: Seq<char>)
    requires
        comma_free(s),
    ensures
        split_first(s, ","@) is None,
{
    reveal_strlit(",");
    assert forall|i: int| !is_first_occurrence(s, ","@, i) by {
        if occurs_at(s, ","@, i) {
            assert(s.subrange(i, i + 1)[0] == s[i]);
        }
    }
}

/// Cutting `a + "," + b` at its first comma gives back `a` and `b` when `a`
/// holds no comma.
pub proof fn lemma_split_at_first_comma(a: Seq<char>, b: Seq<char>)
    requires
        comma_free(a),
    ensures
        split_first(a + ","@ + b, ","@) == Some((a, b)),
{
    reveal_strlit(",");
    let s = a + ","@ + b;
    let i = a.len() as int;
    assert(s.subrange(i, i + 1) =~= ","@);
    assert forall|j: int| 0 <= j < i implies !occurs_at(s, ","@, j) by {
        assert(s.subrange(j, j + 1)[0] == a[j]);
    }
    assert(is_first_occurrence(s, ","@, i));
    let k = choose|k: int| is_first_occurrence(s, ","@, k);
    lemma_first_occurrence_unique(s, ","@, i, k);
    assert(s.take(i) =~= a);
    assert(s.skip(i + 1) =~= b);
}

/// A payload without a comma is malformed for every event that needs two or
/// more fields.
pub proof fn lemma_missing_comma_is_malformed(name: Seq<char>, data: Seq<char>)
    requires
        needs_comma(name),
        comma_free(data),
    ensures
        parse_spec(name, data) == Err::<EventModel, Error>(Error::MalformedInput),
{
    broadcast use vstd::string::group_string_axioms;

    reveal_strlit("workspace");
    reveal_strlit("focusedmon");
    reveal_strlit("activewindow");
    reveal_strlit("activewindowv2");
    reveal_strlit("fullscreen");
    reveal_strlit("monitorremoved");
    reveal_strlit("monitoradded");
    reveal_strlit("createworkspace");
    reveal_strlit("destroyworkspace");
    reveal_strlit("moveworkspace");
    reveal_strlit("renameworkspace");
    reveal_strlit("activespecial");
    reveal_strlit("activelayout");
    reveal_strlit("openwindow");
    reveal_strlit("closewindow");
    reveal_strlit("movewindow");
    reveal_strlit("openlayer");
    reveal_strlit("closelayer");
    reveal_strlit("submap");
    reveal_strlit("changefloatingmode");
    reveal_strlit("urgent");
    reveal_strlit("minimize");
    reveal_strlit("screencast");
    reveal_strlit("windowtitle");
    reveal_strlit("ignoregrouplock");
    reveal_strlit("lockgroups");
    reveal_strlit(",");
    lemma_no_comma_no_split(data);
    assert("workspace"@.len() == 9);
    assert("focusedmon"@.len() == 10);
    assert("activewindow"@.len() == 12);
    assert("activewindowv2"@.len() == 14);
    assert("fullscreen"@.len() == 10);
    assert("monitorremoved"@.len() == 14);
    assert("monitoradded"@.len() == 12);
    assert("createworkspace"@.len() == 15);
    assert("destroyworkspace"@.len() == 16);
    assert("moveworkspace"@.len() == 13);
    assert("renameworkspace"@.len() == 15);
    assert("activespecial"@.len() == 13);
    assert("activelayout"@.len() == 12);
    assert("openwindow"@.len() == 10);
    assert("closewindow"@.len() == 11);
    assert("movewindow"@.len() == 10);
    assert("openlayer"@.len() == 9);
    assert("closelayer"@.len() == 10);
    assert("submap"@.len() == 6);
    assert("changefloatingmode"@.len() == 18);
    assert("urgent"@.len() == 6);
    assert("minimize"@.len() == 8);
    assert("screencast"@.len() == 10);
    assert("windowtitle"@.len() == 11);
    assert("ignoregrouplock"@.len() == 15);
    assert("lockgroups"@.len() == 10);
    assert(two_fields_spec(data) == Err::<(Seq<char>, Seq<char>), _>(Error::MalformedInput));
    assert(field_and_flag_spec(data) == Err::<(Seq<char>, bool), _>(Error::MalformedInput));
    assert(four_fields_spec(data) == Err::<(Seq<char>, Seq<char>, Seq<char>, Seq<char>), _>(
        Error::MalformedInput,
    ));
    if name == "renameworkspace"@ {
        assert("renameworkspace"@[0] != "createworkspace"@[0]);
    }
    if name == "activespecial"@ {
        assert("activespecial"@[0] != "moveworkspace"@[0]);
    }
    if name == "activelayout"@ {
        assert("activelayout"@[6] != "activewindow"@[6]);
        assert("activelayout"@[0] != "monitoradded"@[0]);
    }
    if name == "openwindow"@ {
        assert("openwindow"@[0] != "focusedmon"@[0]);
        assert("openwindow"@[0] != "fullscreen"@[0]);
    }
    if name == "movewindow"@ {
        assert("movewindow"@[0] != "focusedmon"@[0]);
        assert("movewindow"@[0] != "fullscreen"@[0]);
        assert("movewindow"@[0] != "openwindow"@[0]);
    }
    if name == "screencast"@ {
        assert("screencast"@[0] != "focusedmon"@[0]);
        assert("screencast"@[0] != "fullscreen"@[0]);
        assert("screencast"@[0] != "openwindow"@[0]);
        assert("screencast"@[0] != "movewindow"@[0]);
        assert("screencast"@[0] != "closelayer"@[0]);
    }
}

/// A name outside the table is an unknown event, whatever the payload.
pub proof fn lemma_unknown_name(name: Seq<char>, data: Seq<char>)
    requires
        !is_known_name(name),
    ensures
        parse_spec(name, data) == Err::<EventModel, Error>(Error::UnknownEvent),
{
}

/// Only the first comma cuts a two-field payload: the second field keeps every
/// comma that follows.
pub proof fn lemma_two_fields_first_comma(a: Seq<char>, b: Seq<char>)
    requires
        comma_free(a),
    ensures
        two_fields_spec(a + ","@ + b) == Ok::<_, Error>((a, b)),
{
    lemma_split_at_first_comma(a, b);
}

/// A four-field payload is cut three times from the left: the last field
/// keeps every comma that follows.
pub proof fn lemma_four_fields_keep_tail(a: Seq<char>, b: Seq<char>, c: Seq<char>, d: Seq<char>)
    requires
        comma_free(a),
        comma_free(b),
        comma_free(c),
    ensures
        four_fields_spec(a + ","@ + b + ","@ + c + ","@ + d) == Ok::<_, Error>((a, b, c, d)),
{
    let r2 = c + ","@ + d;
    let r1 = b + ","@ + r2;
    assert(a + ","@ + b + ","@ + c + ","@ + d =~= a + ","@ + r1);
    lemma_split_at_first_comma(a, r1);
    lemma_split_at_first_comma(b, r2);
    lemma_split_at_first_comma(c, d);
}

/// Flag fields: `0` is false, `1` and `2` are true, `x` is malformed.
pub proof fn lemma_flag_values()
    ensures
        flag_spec("0"@) == Ok::<_, Error>(false),
        flag_spec("1"@) == Ok::<_, Error>(true),
        flag_spec("2"@) == Ok::<_, Error>(true),
        flag_spec("x"@) == Err::<bool, _>(Error::MalformedInput),
{
    reveal_strlit("0");
    reveal_strlit("1");
    reveal_strlit("2");
    reveal_strlit("x");
    assert(digits_value("0"@) == 0) by {
        reveal_with_fuel(digits_value, 2);
        assert("0"@.drop_last() =~= Seq::<char>::empty());
    }
    assert(digits_value("1"@) == 1) by {
        reveal_with_fuel(digits_value, 2);
        assert("1"@.drop_last() =~= Seq::<char>::empty());
    }
    assert(digits_value("2"@) == 2) by {
        reveal_with_fuel(digits_value, 2);
        assert("2"@.drop_last() =~= Seq::<char>::empty());
    }
    assert(!all_digits("x"@)) by {
        assert("x"@[0] == 'x');
    }
}

/// The model of a decoding result.
pub open spec fn result_view(r: Result<Event, Error>) -> Result<EventModel, Error> {
    match r {
        Ok(e) => Ok(e@),
        Err(e) => Err(e),
    }
}

fn owned(s: &str) -> (r: String)
    ensures
        r@ == s@,
{
    String::from_str(s)
}

/// Splits a two-field payload at its first comma.
pub fn two_fields(data: &str) -> (r: Result<(String, String), Error>)
    ensures
        match r {
            Ok((a, b)) => two_fields_spec(data@) == Ok::<_, Error>((a@, b@)),
            Err(e) => two_fields_spec(data@) == Err::<(Seq<char>, Seq<char>), _>(e),
        },
{
    match split_once(data, ",") {
        Some((a, b)) => Ok((owned(a), owned(b))),
        None => Err(Error::MalformedInput),
    }
}

/// Splits a four-field payload with at most three cuts from the left.
pub fn four_fields(data: &str) -> (r: Result<(String, String, String, String), Error>)
    ensures
        match r {
            Ok((a, b, c, d)) => four_fields_spec(data@) == Ok::<_, Error>((a@, b@, c@, d@)),
            Err(e) => four_fields_spec(data@) == Err::<
                (Seq<char>, Seq<char>, Seq<char>, Seq<char>),
                _,
            >(e),
        },
{
    match split_once(data, ",") {
        Some((a, r1)) => match split_once(r1, ",") {
            Some((b, r2)) => match split_once(r2, ",") {
                Some((c, d)) => Ok((owned(a), owned(b), owned(c), owned(d))),
                None => Err(Error::MalformedInput),
            },
            None => Err(Error::MalformedInput),
        },
        None => Err(Error::MalformedInput),
    }
}

/// Reads a flag payload: `0` is false, any other byte value true.
pub fn flag(data: &str) -> (r: Result<bool, Error>)
    ensures
        match r {
            Ok(b) => flag_spec(data@) == Ok::<_, Error>(b),
            Err(e) => flag_spec(data@) == Err::<bool, _>(e),
        },
{
    match parse_flag(data) {
        Some(b) => Ok(b),
        None => Err(Error::MalformedInput),
    }
}

/// Splits a payload into a field and a trailing flag.
pub fn field_and_flag(data: &str) -> (r: Result<(String, bool), Error>)
    ensures
        match r {
            Ok((a, b)) => field_and_flag_spec(data@) == Ok::<_, Error>((a@, b)),
            Err(e) => field_and_flag_spec(data@) == Err::<(Seq<char>, bool), _>(e),
        },
{
    match split_once(data, ",") {
        Some((a, b)) => match flag(b) {
            Ok(f) => Ok((owned(a), f)),
            Err(e) => Err(e),
        },
        None => Err(Error::MalformedInput),
    }
}

impl Event {
    /// Decodes the payload `data` of the event named `event`.
    pub fn parse(event: &str, data: &str) -> (r: Result<Event, Error>)
        ensures
            result_view(r) == parse_spec(event@, data@),
    {
        if same_text(event, "workspace") {
            Ok(Event::Workspace { workspace_name: owned(data) })
        } else if same_text(event, "focusedmon") {
            match two_fields(data) {
                Ok((a, b)) => Ok(Event::FocusedMon { mon_name: a, workspace_name: b }),
                Err(e) => Err(e),
            }
        } else if same_text(event, "activewindow") {
            match two_fields(data) {
                Ok((a, b)) => Ok(Event::ActiveWindow { window_class: a, window_title: b }),
                Err(e) => Err(e),
            }
        } else if same_text(event, "activewindowv2") {
            Ok(Event::ActiveWindowV2 { window_address: owned(data) })
        } else if same_text(event, "fullscreen") {
            match flag(data) {
                Ok(b) => Ok(Event::Fullscreen(b)),
                Err(e) => Err(e),
            }
        } else if same_text(event, "monitorremoved") {
            Ok(Event::MonitorRemoved { monitor_name: owned(data) })
        } else if same_text(event, "monitoradded") {
            Ok(Event::MonitorAdded { monitor_name: owned(data) })
        } else if same_text(event, "createworkspace") {
            Ok(Event::CreateWorkspace { workspace_name: owned(data) })
        } else if same_text(event, "destroyworkspace") {
            Ok(Event::DestroyWorkspace { workspace_name: owned(data) })
        } else if same_text(event, "moveworkspace") {
            match two_fields(data) {
                Ok((a, b)) => Ok(Event::MoveWorkspace { workspace_name: a, mon_name: b }),
                Err(e) => Err(e),
            }
        } else if same_text(event, "renameworkspace") {
            match two_fields(data) {
                Ok((a, b)) => Ok(Event::RenameWorkspace { workspace_id: a, new_name: b }),
                Err(e) => Err(e),
            }
        } else if same_text(event, "activespecial") {
            match two_fields(data) {
                Ok((a, b)) => Ok(Event::ActiveSpecial { workspace_name: a, mon_name: b }),
                Err(e) => Err(e),
            }
        } else if same_text(event, "activelayout") {
            match two_fields(data) {
                Ok((a, b)) => Ok(Event::ActiveLayout { keyboard_name: a, layout_name: b }),
                Err(e) => Err(e),
            }
        } else if same_text(event, "openwindow") {
            match four_fields(data) {
                Ok((a, b, c, d)) => Ok(
                    Event::OpenWindow {
                        window_address: a,
                        workspace_name: b,
                        window_class: c,
                        window_title: d,
                    },
                ),
                Err(e) => Err(e),
            }
        } else if same_text(event, "closewindow") {
            Ok(Event::CloseWindow { window_address: owned(data) })
        } else if same_text(event, "movewindow") {
            match two_fields(data) {
                Ok((a, b)) => Ok(Event::MoveWindow { window_address: a, workspace_name: b }),
                Err(e) => Err(e),
            }
        } else if same_text(event, "openlayer") {
            Ok(Event::OpenLayer { namespace: owned(data) })
        } else if same_text(event, "closelayer") {
            Ok(Event::CloseLayer { namespace: owned(data) })
        } else if same_text(event, "submap") {
            Ok(Event::Submap { submap_name: owned(data) })
        } else if same_text(event, "changefloatingmode") {
            match field_and_flag(data) {
                Ok((a, b)) => Ok(Event::ChangeFloatingMode { window_address: a, floating: b }),
                Err(e) => Err(e),
            }
        } else if same_text(event, "urgent") {
            Ok(Event::Urgent { window_address: owned(data) })
        } else if same_text(event, "minimize") {
            match field_and_flag(data) {
                Ok((a, b)) => Ok(Event::Minimize { window_address: a, minimized: b }),
                Err(e) => Err(e),
            }
        } else if same_text(event, "screencast") {
            match two_fields(data) {
                Ok((a, b)) => Ok(Event::Screencast { state: a, owner: b }),
                Err(e) => Err(e),
            }
        } else if same_text(event, "windowtitle") {
            Ok(Event::WindowTitle { window_address: owned(data) })
        } else if same_text(event, "ignoregrouplock") {
            match flag(data) {
                Ok(b) => Ok(Event::IgnoreGroupLock(b)),
                Err(e) => Err(e),
            }
        } else if same_text(event, "lockgroups") {
            match flag(data) {
                Ok(b) => Ok(Event::LockGroups(b)),
                Err(e) => Err(e),
            }
        } else {
            Err(Error::UnknownEvent)
        }
    }
}

} // verus!
