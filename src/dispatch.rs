//! The command protocol: where the sockets are, what a request says, and how
//! an answer is classified.
use vstd::prelude::*;
use vstd::string::*;

use crate::error::Error;
use crate::params::Window;

verus! {

/// Where the command socket of the instance `his` is.
pub open spec fn command_socket_spec(his: Seq<char>) -> Seq<char> {
    "/tmp/hypr/"@ + his + "/.socket.sock"@
}

/// Where the event socket of the instance `his` is.
pub open spec fn event_socket_spec(his: Seq<char>) -> Seq<char> {
    "/tmp/hypr/"@ + his + "/.socket2.sock"@
}

/// Path of the event socket of the compositor instance `his`.
pub fn event_socket_path(his: &str) -> (r: String)
    ensures
        r@ == event_socket_spec(his@),
{
    String::from_str("/tmp/hypr/").concat(his).concat("/.socket2.sock")
}

/// Sends commands to the compositor, one connection per command.
pub struct Dispatcher {
    socket_path: String,
}

impl Dispatcher {
    /// The path of the command socket that this dispatcher connects to.
    pub closed spec fn path(&self) -> Seq<char> {
        self.socket_path@
    }

    /// A dispatcher for the compositor instance named `his`, the value of the
    /// environment's instance signature; without one there is no compositor
    /// to talk to.
    pub fn from_instance_signature(his: Option<&str>) -> (r: Result<Self, Error>)
        ensures
            match his {
                Some(h) => r matches Ok(d) && d.path() == command_socket_spec(h@),
                None => r matches Err(Error::NoInstanceSignature),
            },
    {
        match his {
            Some(h) => Ok(
                Dispatcher {
                    socket_path: String::from_str("/tmp/hypr/").concat(h).concat("/.socket.sock"),
                },
            ),
            None => Err(Error::NoInstanceSignature),
        }
    }

    /// The path of the command socket.
    pub fn socket_path(&self) -> (r: &str)
        ensures
            r@ == self.path(),
    {
        self.socket_path.as_str()
    }
}

/// Whether an answer is the success sentinel.
pub open spec fn is_ok_response(response: Seq<char>) -> bool {
    response == "ok"@
}

/// Classifies the full answer of the command socket: the literal `ok` is
/// success, anything else comes back as it was read.
pub fn check_response(response: String) -> (r: Result<String, Error>)
    ensures
        is_ok_response(response@) ==> (r matches Ok(s) && s@ == response@),
        !is_ok_response(response@) ==> (r matches Err(Error::NotOkResponse(s)) && s@
            == response@),
{
    if crate::text::same_text(response.as_str(), "ok") {
        Ok(response)
    } else {
        Err(Error::NotOkResponse(response))
    }
}

/// The request that runs the dispatcher `name`, on `window` if one is given.
pub open spec fn dispatch_request_spec(name: Seq<char>, window: Option<&Window>) -> Seq<char> {
    match window {
        Some(w) => "/dispatch "@ + name + " "@ + w.text_spec(),
        None => "/dispatch "@ + name,
    }
}

/// Builds the request that runs the dispatcher `name`, on `window` if given.
pub fn dispatch_request(name: &str, window: Option<&Window>) -> (r: String)
    ensures
        r@ == dispatch_request_spec(name@, window),
{
    let base = String::from_str("/dispatch ").concat(name);
    match window {
        Some(w) => {
            let text = w.to_text();
            base.concat(" ").concat(text.as_str())
        },
        None => base,
    }
}

/// The request that toggles floating mode.
pub fn toggle_floating_request(window: Option<&Window>) -> (r: String)
    ensures
        r@ == dispatch_request_spec("togglefloating"@, window),
{
    dispatch_request("togglefloating", window)
}

/// The request that pins a window.
pub fn pin_request(window: Option<&Window>) -> (r: String)
    ensures
        r@ == dispatch_request_spec("pin"@, window),
{
    dispatch_request("pin", window)
}

/// The request that moves a window out of its group.
pub fn moveoutofgroup_request(window: Option<&Window>) -> (r: String)
    ensures
        r@ == dispatch_request_spec("moveoutofgroup"@, window),
{
    dispatch_request("moveoutofgroup", window)
}

/// The request that lists the clients as JSON.
pub fn clients_request() -> (r: String)
    ensures
        r@ == "j/clients"@,
{
    String::from_str("j/clients")
}

/// A workspace, as the client listing describes it.
#[derive(Debug, Clone, PartialEq, Eq)]
pub struct Workspace {
    pub id: i64,
    pub name: String,
}

/// A window, as the client listing describes it.
#[derive(Debug, Clone, PartialEq, Eq)]
pub struct Client {
    pub address: String,
    pub mapped: bool,
    pub hidden: bool,
    pub at: [u32; 2],
    pub size: [u32; 2],
    pub workspace: Workspace,
    pub floating: bool,
    pub monitor: i64,
    pub class: String,
    pub title: String,
    pub initial_class: String,
    pub initial_title: String,
    pub pid: i32,
    pub xwayland: bool,
    pub pinned: bool,
    pub fullscreen: bool,
    pub fullscreen_mode: i64,
    pub fake_fullscreen: bool,
    pub grouped: Vec<String>,
    pub swallowing: String,
}

} // verus!
