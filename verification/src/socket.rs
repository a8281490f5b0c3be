//! Transport selection and the daemon-side bind protocol.
//!
//! Two transports exist: a Unix domain socket at a configured path, and a TCP
//! socket on the loopback interface.  The functions here decide, from the
//! addressing configuration and from observations of the environment (does
//! the socket file exist? did a trial connection succeed?), which operation
//! the unverified I/O shell must perform next.  Every decision is a pure
//! function of its arguments, so the stale-socket protocol is exactly the
//! ghost model stated alongside it.

use vstd::prelude::*;

use crate::error::{Error, ErrorView};

verus! {

// ---------------------------------------------------------------------------
// Addresses and messages
// ---------------------------------------------------------------------------

/// The loopback address for a port.  TCP binding and connecting never target
/// any other host: this is a hard security boundary.
pub open spec fn loopback_address_spec(port: Seq<char>) -> Seq<char> {
    "127.0.0.1:"@ + port
}

/// Builds `127.0.0.1:<port>`.
pub fn loopback_address(port: &String) -> (r: String)
    ensures
        r@ == loopback_address_spec(port@),
{
    String::from_str("127.0.0.1:").concat(port.as_str())
}

pub open spec fn not_found_prefix() -> Seq<char> {
    "Couldn't find unix socket at path \""@
}

pub open spec fn not_found_suffix() -> Seq<char> {
    "\". Is the daemon running yet?"@
}

/// Message of the failure reported when the configured socket path is absent.
pub open spec fn not_found_message_spec(path: Seq<char>) -> Seq<char> {
    not_found_prefix() + path + not_found_suffix()
}

pub open spec fn connect_failed_prefix() -> Seq<char> {
    "Failed to connect to the daemon on port "@
}

pub open spec fn connect_failed_suffix() -> Seq<char> {
    ". Did you start it?"@
}

/// Message of the failure reported when the TCP connection is refused.
pub open spec fn connect_failed_message_spec(port: Seq<char>) -> Seq<char> {
    connect_failed_prefix() + port + connect_failed_suffix()
}

/// Message of the fatal failure reported when a live daemon owns the path.
pub open spec fn already_running_message_spec() -> Seq<char> {
    "There seems to be an active pueue daemon.\nIf you're sure there isn't, please remove the socket by hand inside the pueue_directory."@
}

// ---------------------------------------------------------------------------
// Client connection factory
// ---------------------------------------------------------------------------

/// Ghost model of a [`ClientStep`].
pub enum ClientStepView {
    ConnectUnix { path: Seq<char> },
    ConnectTcp { address: Seq<char>, port: Seq<char> },
}

/// The single connect operation the client shell must perform.
pub enum ClientStep {
    /// Connect a Unix domain stream to `path`.
    ConnectUnix { path: String },
    /// Connect a TCP stream to `address`, which is always on loopback.
    ConnectTcp { address: String, port: String },
}

impl View for ClientStep {
    type V = ClientStepView;

    open spec fn view(&self) -> ClientStepView {
        match self {
            ClientStep::ConnectUnix { path } => ClientStepView::ConnectUnix { path: path@ },
            ClientStep::ConnectTcp { address, port } => ClientStepView::ConnectTcp {
                address: address@,
                port: port@,
            },
        }
    }
}

/// What the client connection factory decides, as a function of the
/// configuration and of whether the configured socket path exists.
///
/// With a Unix path configured, an absent path is a NotFound failure and an
/// existing path is connected to; no TCP connection is ever attempted.  With
/// no Unix path, the target is the loopback address built from the port.
pub open spec fn client_plan_spec(
    unix_socket_path: Option<Seq<char>>,
    port: Option<Seq<char>>,
    path_exists: bool,
) -> Result<ClientStepView, ErrorView> {
    match unix_socket_path {
        Some(path) => if path_exists {
            Ok(ClientStepView::ConnectUnix { path })
        } else {
            Err(ErrorView::NotFound(not_found_message_spec(path)))
        },
        None => match port {
            Some(p) => Ok(
                ClientStepView::ConnectTcp { address: loopback_address_spec(p), port: p },
            ),
            None => arbitrary(),
        },
    }
}

pub open spec fn option_str_view(o: Option<String>) -> Option<Seq<char>> {
    match o {
        Some(s) => Some(s@),
        None => None,
    }
}

pub open spec fn result_view<T: View, E: View>(r: Result<T, E>) -> Result<T::V, E::V> {
    match r {
        Ok(t) => Ok(t.view()),
        Err(e) => Err(e.view()),
    }
}

/// Decides how the client connects, given whether `unix_socket_path` (when
/// configured) currently exists on the file system.
///
/// A missing port with no Unix path is a caller contract violation, hence the
/// precondition.
pub fn plan_client(
    unix_socket_path: Option<String>,
    port: Option<String>,
    path_exists: bool,
) -> (r: Result<ClientStep, Error>)
    requires
        unix_socket_path matches None ==> port matches Some(_),
    ensures
        result_view(r) == client_plan_spec(
            option_str_view(unix_socket_path),
            option_str_view(port),
            path_exists,
        ),
{
    match unix_socket_path {
        Some(path) => {
            if path_exists {
                Ok(ClientStep::ConnectUnix { path })
            } else {
                let m = String::from_str("Couldn't find unix socket at path \"").concat(
                    path.as_str(),
                ).concat("\". Is the daemon running yet?");
                Err(Error::NotFound(m))
            }
        },
        None => {
            let p = match port {
                Some(p) => p,
                None => unreached(),
            };
            let address = loopback_address(&p);
            Ok(ClientStep::ConnectTcp { address, port: p })
        },
    }
}

/// Wraps the OS failure of the decided connect operation.
///
/// A refused Unix connection propagates the OS message unchanged; a refused
/// TCP connection is reported with the port and a hint that the daemon may
/// not have been started.
pub fn connect_failure(step: &ClientStep, os_error: String) -> (e: Error)
    ensures
        match step {
            ClientStep::ConnectUnix { .. } => e@ == ErrorView::ConnectFailed(os_error@),
            ClientStep::ConnectTcp { port, .. } => e@ == ErrorView::ConnectFailed(
                connect_failed_message_spec(port@),
            ),
        },
{
    match step {
        ClientStep::ConnectUnix { .. } => Error::ConnectFailed(os_error),
        ClientStep::ConnectTcp { port, .. } => {
            let m = String::from_str("Failed to connect to the daemon on port ").concat(
                port.as_str(),
            ).concat(". Did you start it?");
            Error::ConnectFailed(m)
        },
    }
}

// ---------------------------------------------------------------------------
// Listener factory and the stale-socket protocol
// ---------------------------------------------------------------------------

/// Ghost model of a [`ListenerStep`].
pub enum ListenerStepView {
    CheckUnixPath { path: Seq<char> },
    BindTcp { address: Seq<char>, port: Seq<char> },
}

/// The first operation of the listener factory.
pub enum ListenerStep {
    /// A Unix path is configured: the shell must report whether it exists,
    /// then follow [`unix_bind_decision`].
    CheckUnixPath { path: String },
    /// No Unix path: bind a TCP listener on `address` (always loopback); the
    /// OS itself enforces port exclusivity.
    BindTcp { address: String, port: String },
}

impl View for ListenerStep {
    type V = ListenerStepView;

    open spec fn view(&self) -> ListenerStepView {
        match self {
            ListenerStep::CheckUnixPath { path } => ListenerStepView::CheckUnixPath {
                path: path@,
            },
            ListenerStep::BindTcp { address, port } => ListenerStepView::BindTcp {
                address: address@,
                port: port@,
            },
        }
    }
}

/// What the listener factory does first, before any probe.
pub open spec fn listener_plan_spec(
    unix_socket_path: Option<Seq<char>>,
    port: Option<Seq<char>>,
) -> ListenerStepView {
    match unix_socket_path {
        Some(path) => ListenerStepView::CheckUnixPath { path },
        None => match port {
            Some(p) => ListenerStepView::BindTcp { address: loopback_address_spec(p), port: p },
            None => arbitrary(),
        },
    }
}

/// Decides the listener factory's first operation from the configuration.
pub fn plan_listener(unix_socket_path: Option<String>, port: Option<String>) -> (r: ListenerStep)
    requires
        unix_socket_path matches None ==> port matches Some(_),
    ensures
        r@ == listener_plan_spec(option_str_view(unix_socket_path), option_str_view(port)),
{
    match unix_socket_path {
        Some(path) => ListenerStep::CheckUnixPath { path },
        None => {
            let p = match port {
                Some(p) => p,
                None => unreached(),
            };
            let address = loopback_address(&p);
            ListenerStep::BindTcp { address, port: p }
        },
    }
}

/// Ghost model of a [`BindAction`].
pub enum BindActionView {
    Bind { path: Seq<char> },
    RemoveThenBind { path: Seq<char> },
}

/// The bind operation the daemon shell must perform on the Unix path.
pub enum BindAction {
    /// Bind a fresh Unix listener at `path`.
    Bind { path: String },
    /// Delete the stale socket file at `path`, then bind there.  A deletion
    /// failure must be propagated; the daemon never runs without a listener.
    RemoveThenBind { path: String },
}

impl View for BindAction {
    type V = BindActionView;

    open spec fn view(&self) -> BindActionView {
        match self {
            BindAction::Bind { path } => BindActionView::Bind { path: path@ },
            BindAction::RemoveThenBind { path } => BindActionView::RemoveThenBind { path: path@ },
        }
    }
}

/// The stale-socket protocol: what binding at an existing or absent Unix
/// socket path comes to, given the outcome of the trial connection.
///
/// An absent path is bound directly.  An existing path that accepts a
/// connection belongs to a live daemon: fail fatally, touch nothing.  An
/// existing path that refuses the connection is a crash artifact: delete the
/// file, then bind.
pub open spec fn unix_bind_spec(path: Seq<char>, path_exists: bool, probe_connected: bool) -> Result<
    BindActionView,
    ErrorView,
> {
    if !path_exists {
        Ok(BindActionView::Bind { path })
    } else if probe_connected {
        Err(ErrorView::AlreadyRunning(already_running_message_spec()))
    } else {
        Ok(BindActionView::RemoveThenBind { path })
    }
}

/// Decides the bind operation for a configured Unix socket path.
///
/// `probe_connected` reports whether a trial connection to the existing path
/// succeeded; it is only consulted when `path_exists` holds, since the trial
/// connection is only attempted against an existing file.
pub fn unix_bind_decision(path: String, path_exists: bool, probe_connected: bool) -> (r: Result<
    BindAction,
    Error,
>)
    ensures
        result_view(r) == unix_bind_spec(path@, path_exists, probe_connected),
{
    if !path_exists {
        Ok(BindAction::Bind { path })
    } else if probe_connected {
        Err(
            Error::AlreadyRunning(
                String::from_str(
                    "There seems to be an active pueue daemon.\nIf you're sure there isn't, please remove the socket by hand inside the pueue_directory.",
                ),
            ),
        )
    } else {
        Ok(BindAction::RemoveThenBind { path })
    }
}

// ---------------------------------------------------------------------------
// Laws of the transport protocol
// ---------------------------------------------------------------------------

/// Law: when a Unix socket path is configured the client factory never
/// targets TCP, and when the path does not exist it fails with NotFound
/// before any connection is attempted; the message spells out the path.
pub proof fn lemma_client_unix_never_tcp(
    path: Seq<char>,
    port: Option<Seq<char>>,
    path_exists: bool,
)
    ensures
        (client_plan_spec(Some(path), port, path_exists) matches Ok(s) ==> s matches
            ClientStepView::ConnectUnix { path: p } && p == path),
        !path_exists ==> client_plan_spec(Some(path), port, path_exists) == Err::<
            ClientStepView,
            ErrorView,
        >(ErrorView::NotFound(not_found_message_spec(path))),
        not_found_message_spec(path).subrange(
            not_found_prefix().len() as int,
            (not_found_prefix().len() + path.len()) as int,
        ) == path,
{
    assert(not_found_message_spec(path).subrange(
        not_found_prefix().len() as int,
        (not_found_prefix().len() + path.len()) as int,
    ) =~= path);
}

/// Law: without a Unix path the client factory targets only the loopback
/// interface: the connect address is exactly `127.0.0.1:` followed by the
/// configured port, whatever other host-like values the caller may hold.
pub proof fn lemma_client_tcp_loopback(port: Seq<char>, path_exists: bool)
    ensures
        client_plan_spec(None, Some(port), path_exists) == Ok::<ClientStepView, ErrorView>(
            ClientStepView::ConnectTcp { address: loopback_address_spec(port), port },
        ),
        loopback_address_spec(port).take("127.0.0.1:"@.len() as int) == "127.0.0.1:"@,
        loopback_address_spec(port).skip("127.0.0.1:"@.len() as int) == port,
{
    assert(loopback_address_spec(port).take("127.0.0.1:"@.len() as int) =~= "127.0.0.1:"@);
    assert(loopback_address_spec(port).skip("127.0.0.1:"@.len() as int) =~= port);
}

/// Law (stale-socket protocol): whenever no live daemon owns the path — the
/// file is absent, or present but refusing connections — the protocol ends
/// in a bind at exactly the requested path, deleting the file first exactly
/// when it exists.  Whenever a live daemon owns the path the protocol fails
/// with AlreadyRunning, performs no action at all (in particular it never
/// removes the file), and the message reports the active pueue daemon.
pub proof fn lemma_stale_socket_protocol(path: Seq<char>, path_exists: bool, probe_connected: bool)
    ensures
        !path_exists ==> unix_bind_spec(path, path_exists, probe_connected) == Ok::<
            BindActionView,
            ErrorView,
        >(BindActionView::Bind { path }),
        path_exists && !probe_connected ==> unix_bind_spec(path, path_exists, probe_connected)
            == Ok::<BindActionView, ErrorView>(BindActionView::RemoveThenBind { path }),
        path_exists && probe_connected ==> unix_bind_spec(path, path_exists, probe_connected)
            == Err::<BindActionView, ErrorView>(
            ErrorView::AlreadyRunning(already_running_message_spec()),
        ),
        already_running_message_spec().subrange(21, 40) == "active pueue daemon"@,
{
    reveal_strlit(
        "There seems to be an active pueue daemon.\nIf you're sure there isn't, please remove the socket by hand inside the pueue_directory.",
    );
    reveal_strlit("active pueue daemon");
    assert(already_running_message_spec().subrange(21, 40) =~= "active pueue daemon"@);
}

/// Law: a bound listener and a client that is configured alike meet at the
/// same endpoint — the same Unix path (which exists once the listener holds
/// it), or the same loopback address for the same port.
pub proof fn lemma_client_reaches_bound_listener(
    path: Seq<char>,
    port: Seq<char>,
    other_port: Option<Seq<char>>,
    path_exists: bool,
)
    ensures
        (listener_plan_spec(Some(path), other_port) == ListenerStepView::CheckUnixPath { path }),
        (client_plan_spec(Some(path), other_port, true) == Ok::<ClientStepView, ErrorView>(
            ClientStepView::ConnectUnix { path },
        )),
        ({
            let bound = listener_plan_spec(None, Some(port));
            let conn = client_plan_spec(None, Some(port), path_exists);
            bound == ListenerStepView::BindTcp { address: loopback_address_spec(port), port }
                && conn == Ok::<ClientStepView, ErrorView>(
                ClientStepView::ConnectTcp { address: loopback_address_spec(port), port },
            )
        }),
{
}

} // verus!
