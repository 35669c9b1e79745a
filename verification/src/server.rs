//! The server: its registry, its plugin chains, the size of the worker group
//! that each connection gets, and the life of its listening socket.
//!
//! A server is created, starts listening at most once, and is closed. The
//! handle of the listening socket is recorded when the socket is bound and
//! given back, once, when the server is closed, so that the caller can
//! release it.

use crate::error::{ErrorKind, ServerError};
use crate::plugin::{notify_connect, notify_register, ConnectPlugin, RegisterPlugin};
use crate::registry::{registered, resolved, Registry};
use vstd::prelude::*;
use vstd::string::StringExecFns;

verus! {

/// Where a server is in its life.
#[derive(Clone, Copy, Debug, PartialEq, Eq, Structural)]
pub enum Lifecycle {
    /// Not listening yet.
    Created,
    /// Bound to its address and accepting connections.
    Listening,
    /// Closed for good.
    Closed,
}

/// How the attempt to bind the listening socket ended.
#[derive(Debug, PartialEq, Eq)]
pub enum BindOutcome {
    /// The address is no socket address; the text says why.
    InvalidAddress(String),
    /// The address could not be bound; the text says why.
    BindFailed(String),
    /// The socket is bound; this is its handle.
    Bound(i32),
}

/// What the listener handed out.
#[derive(Debug, PartialEq, Eq)]
pub enum AcceptEvent {
    /// A new connection.
    Accepted,
    /// A failure of the listener; the text says why.
    Failed(String),
}

/// What to do about an [`AcceptEvent`].
#[derive(Debug, PartialEq, Eq)]
pub enum AcceptAction {
    /// Serve the connection on its own, with a worker group of this size,
    /// and go on accepting.
    Serve { workers: u32 },
    /// Stop accepting and report this error. Connections that are being
    /// served go on.
    Stop(ServerError),
}

/// The size of a connection's worker group on a machine with `cpus`
/// processing units, where none was configured: twice their number, and at
/// most `u32::MAX`.
pub open spec fn default_thread_number(cpus: usize) -> u32 {
    if 2 * cpus <= u32::MAX {
        (2 * cpus) as u32
    } else {
        u32::MAX
    }
}

/// The size of a connection's worker group: `n` as configured, or the
/// default for `cpus` processing units where `n` is 0.
pub open spec fn thread_number_for(n: u32, cpus: usize) -> u32 {
    if n != 0 {
        n
    } else {
        default_thread_number(cpus)
    }
}

/// Calls `num_cpus::get`, the number of logical processing units that this
/// process may use; its documentation promises at least 1.
#[verifier::external_body]
fn available_cpus() -> (cpus: usize)
    ensures
        cpus >= 1,
{
    num_cpus::get()
}

/// Computes [`thread_number_for`].
pub fn worker_group_size(n: u32, cpus: usize) -> (size: u32)
    ensures
        size == thread_number_for(n, cpus),
        n != 0 || cpus >= 1 ==> size >= 1,
{
    if n != 0 {
        n
    } else if cpus <= 0x7fff_ffff {
        2 * (cpus as u32)
    } else {
        u32::MAX
    }
}

/// The text of the error that `start` returns on a server that has been
/// started or closed before.
pub open spec fn already_started_text() -> Seq<char> {
    "server was started or closed before"@
}

/// A server as mathematical values.
#[verifier::reject_recursive_types(H)]
pub struct ServerView<H> {
    /// The address to listen on.
    pub addr: Seq<char>,
    /// The recorded handle of the listening socket.
    pub raw_fd: Option<i32>,
    /// The registered handlers, by service key.
    pub services: Map<Seq<char>, H>,
    /// The size of the worker group that each connection gets.
    pub thread_number: u32,
    /// The number of plugins that are run on registrations.
    pub register_plugins: nat,
    /// The number of plugins that are run on new connections.
    pub connect_plugins: nat,
    /// Where the server is in its life.
    pub lifecycle: Lifecycle,
}

impl<H> ServerView<H> {
    /// A server is well formed when every connection gets at least one
    /// worker, and when it holds a socket handle exactly while it listens.
    pub open spec fn wf(self) -> bool {
        &&& self.thread_number >= 1
        &&& self.raw_fd is Some <==> self.lifecycle == Lifecycle::Listening
    }

    /// The server after it was told how binding its socket ended, and whether
    /// that made it listen; see [`Server::start`].
    pub open spec fn started(self, outcome: BindOutcome) -> (ServerView<H>, bool) {
        match outcome {
            BindOutcome::Bound(fd) if self.lifecycle == Lifecycle::Created => (
                ServerView { raw_fd: Some(fd), lifecycle: Lifecycle::Listening, ..self },
                true,
            ),
            _ => (self, false),
        }
    }

    /// The server after it was closed, and the socket handle that it gave
    /// back.
    pub open spec fn closed(self) -> (ServerView<H>, Option<i32>) {
        (ServerView { raw_fd: None, lifecycle: Lifecycle::Closed, ..self }, self.raw_fd)
    }
}

/// An RPC server for handlers of type `H`.
#[verifier::reject_recursive_types(H)]
pub struct Server<H> {
    pub addr: String,
    raw_fd: Option<i32>,
    pub services: Registry<H>,
    thread_number: u32,
    register_plugins: Vec<Box<dyn RegisterPlugin<H>>>,
    connect_plugins: Vec<Box<dyn ConnectPlugin>>,
    lifecycle: Lifecycle,
}

impl<H> View for Server<H> {
    type V = ServerView<H>;

    closed spec fn view(&self) -> ServerView<H> {
        ServerView {
            addr: self.addr@,
            raw_fd: self.raw_fd,
            services: self.services@,
            thread_number: self.thread_number,
            register_plugins: self.register_plugins@.len(),
            connect_plugins: self.connect_plugins@.len(),
            lifecycle: self.lifecycle,
        }
    }
}

impl<H> Server<H> {
    /// A server for the address `s` whose connections get `n` workers each,
    /// or, where `n` is 0, twice as many as the machine has processing units.
    /// It has no handler and no plugin, and does not listen yet.
    pub fn new(s: String, n: u32) -> (server: Self)
        ensures
            server@.wf(),
            exists|cpus: usize|
                cpus >= 1 && server@ == (ServerView {
                    addr: s@,
                    raw_fd: None,
                    services: Map::<Seq<char>, H>::empty(),
                    thread_number: #[trigger] thread_number_for(n, cpus),
                    register_plugins: 0,
                    connect_plugins: 0,
                    lifecycle: Lifecycle::Created,
                }),
    {
        let cpus = if n == 0 {
            available_cpus()
        } else {
            1
        };
        let thread_number = worker_group_size(n, cpus);
        Server {
            addr: s,
            raw_fd: None,
            services: Registry::new(),
            thread_number,
            register_plugins: Vec::new(),
            connect_plugins: Vec::new(),
            lifecycle: Lifecycle::Created,
        }
    }

    /// The size of the worker group that each connection gets.
    pub fn thread_number(&self) -> (n: u32)
        ensures
            n == self@.thread_number,
    {
        self.thread_number
    }

    /// The recorded handle of the listening socket, while the server listens.
    pub fn raw_fd(&self) -> (fd: Option<i32>)
        ensures
            fd == self@.raw_fd,
    {
        self.raw_fd
    }

    /// Where the server is in its life.
    pub fn lifecycle(&self) -> (l: Lifecycle)
        ensures
            l == self@.lifecycle,
    {
        self.lifecycle
    }

    /// Adds a plugin at the end of the chain that is run on registrations.
    pub fn add_register_plugin(&mut self, plugin: Box<dyn RegisterPlugin<H>>)
        ensures
            final(self)@ == (ServerView {
                register_plugins: (old(self)@.register_plugins + 1) as nat,
                ..old(self)@
            }),
    {
        proof {
            // Verus does not apply this fact to a sequence of trait objects by
            // itself.
            vstd::seq::axiom_seq_push_len(self.register_plugins@, plugin);
        }
        self.register_plugins.push(plugin);
    }

    /// Adds a plugin at the end of the chain that is run on new connections.
    pub fn add_connect_plugin(&mut self, plugin: Box<dyn ConnectPlugin>)
        ensures
            final(self)@ == (ServerView {
                connect_plugins: (old(self)@.connect_plugins + 1) as nat,
                ..old(self)@
            }),
    {
        proof {
            // As in `add_register_plugin`.
            vstd::seq::axiom_seq_push_len(self.connect_plugins@, plugin);
        }
        self.connect_plugins.push(plugin);
    }

    /// Runs the connect plugins, first to last, for a connection from `peer`,
    /// and returns what each of them answered. A failure is for the caller to
    /// log: it stops neither the remaining plugins nor the connection.
    pub fn on_connect(&mut self, peer: &str) -> (outcomes: Vec<Result<(), ServerError>>)
        ensures
            outcomes@.len() == old(self)@.connect_plugins,
            final(self)@ == old(self)@,
    {
        notify_connect(&mut self.connect_plugins, peer)
    }

    /// Records how binding the listening socket ended. On a server that was
    /// just created, a bound socket makes it listen, with the socket's handle
    /// on record; an address that does not parse is an error of kind `Other`
    /// and one that cannot be bound an error of kind `IO`, each with the
    /// text that came with it. A server that was started or closed before
    /// returns an error of kind `Server`. An error leaves the server as it
    /// was.
    pub fn start(&mut self, outcome: BindOutcome) -> (r: Result<(), ServerError>)
        ensures
            final(self)@ == old(self)@.started(outcome).0,
            r is Ok == old(self)@.started(outcome).1,
            old(self)@.wf() ==> final(self)@.wf(),
            match r {
                Ok(()) => true,
                Err(e) => if old(self)@.lifecycle != Lifecycle::Created {
                    e.kind == ErrorKind::Server && e.message@ == already_started_text()
                } else {
                    match outcome {
                        BindOutcome::InvalidAddress(text) => e.kind == ErrorKind::Other
                            && e.message == text,
                        BindOutcome::BindFailed(text) => e.kind == ErrorKind::IO && e.message
                            == text,
                        BindOutcome::Bound(_) => false,
                    }
                },
            },
    {
        match self.lifecycle {
            Lifecycle::Created => {},
            _ => {
                let text = String::from_str("server was started or closed before");
                return Err(ServerError::new(ErrorKind::Server, text));
            },
        }
        match outcome {
            BindOutcome::InvalidAddress(text) => Err(ServerError::new(ErrorKind::Other, text)),
            BindOutcome::BindFailed(text) => Err(ServerError::new(ErrorKind::IO, text)),
            BindOutcome::Bound(fd) => {
                self.raw_fd = Some(fd);
                self.lifecycle = Lifecycle::Listening;
                Ok(())
            },
        }
    }

    /// Says what to do about what the listener handed out: a connection is
    /// served with a worker group of the configured size; a failure stops
    /// the accept loop with an error of kind `Network` and the failure's
    /// text.
    pub fn on_accept(&self, event: AcceptEvent) -> (action: AcceptAction)
        ensures
            match event {
                AcceptEvent::Accepted => action == (AcceptAction::Serve {
                    workers: self@.thread_number,
                }),
                AcceptEvent::Failed(text) => action matches AcceptAction::Stop(e) && e.kind
                    == ErrorKind::Network && e.message == text,
            },
    {
        match event {
            AcceptEvent::Accepted => AcceptAction::Serve { workers: self.thread_number },
            AcceptEvent::Failed(text) => AcceptAction::Stop(
                ServerError::new(ErrorKind::Network, text),
            ),
        }
    }

    /// Closes the server and hands back the handle of its listening socket
    /// for the caller to release, if there is one on record. The handle is
    /// given up by this call, so that a second call returns `None`, as does
    /// the first on a server that never listened.
    pub fn close(&mut self) -> (fd: Option<i32>)
        ensures
            final(self)@ == old(self)@.closed().0,
            fd == old(self)@.closed().1,
            old(self)@.wf() ==> final(self)@.wf(),
    {
        let fd = self.raw_fd;
        self.raw_fd = None;
        self.lifecycle = Lifecycle::Closed;
        fd
    }
}

impl<H: Copy> Server<H> {
    /// Registers the handler `f` for `service_path` and `service_method`.
    /// Every register plugin is told first, in the order of the chain; what
    /// each answered is returned, for the caller to log the failures. The
    /// handler is registered whatever the plugins answered, in place of the
    /// one registered for the same key before.
    pub fn register_fn(
        &mut self,
        service_path: String,
        service_method: String,
        meta: String,
        f: H,
    ) -> (outcomes: Vec<Result<(), ServerError>>)
        ensures
            final(self)@ == (ServerView {
                services: registered(old(self)@.services, service_path@, service_method@, f),
                ..old(self)@
            }),
            outcomes@.len() == old(self)@.register_plugins,
    {
        let outcomes = notify_register(
            &mut self.register_plugins,
            service_path.as_str(),
            service_method.as_str(),
            &meta,
            f,
        );
        self.services.register(service_path.as_str(), service_method.as_str(), f);
        outcomes
    }

    /// The handler registered for `service_path` and `service_method`, or
    /// `None` where there is none.
    pub fn get_fn(&self, service_path: String, service_method: String) -> (f: Option<H>)
        ensures
            f == resolved(self@.services, service_path@, service_method@),
    {
        self.services.lookup(service_path.as_str(), service_method.as_str())
    }
}

/// A server gives its socket handle back once: closing a closed server
/// returns no handle and changes nothing.
pub proof fn law_close_is_idempotent<H>(server: ServerView<H>)
    ensures
        server.closed().0.closed().1 is None,
        server.closed().0.closed().0 == server.closed().0,
        server.closed().0.wf() <==> server.thread_number >= 1,
{
}

/// A server listens at most once: after a start that made it listen, and
/// after it was closed, no start makes it listen again.
pub proof fn law_starts_at_most_once<H>(server: ServerView<H>, first: BindOutcome, second: BindOutcome)
    ensures
        server.started(first).1 ==> !server.started(first).0.started(second).1,
        !server.closed().0.started(second).1,
{
}

} // verus!
