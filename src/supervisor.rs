use vstd::prelude::*;

use crate::client::{ConnectError, EguiMessage, ServerAddr, TokioMessage};

verus! {

/// A live connection: the client library's handle and the address it was
/// opened with, which a reconnect goes back to.
pub struct Connection<H> {
    pub handle: H,
    pub addr: ServerAddr,
}

/// What the supervisor knows: the owned connection, if any; whether the last
/// command was an explicit close whose subscription end is still to come; and
/// the address of the connection attempt in progress, if any.
pub struct SupervisorState<H> {
    pub conn: Option<Connection<H>>,
    pub just_closed: bool,
    pub connecting: Option<ServerAddr>,
}

/// The event reported to the render loop when a connection attempt ends.
pub open spec fn connect_event<H>(result: Result<H, ConnectError>) -> EguiMessage {
    match result {
        Ok(_) => EguiMessage::StartResult(Ok(())),
        Err(e) => EguiMessage::StartResult(Err(e)),
    }
}

impl<H> SupervisorState<H> {
    pub open spec fn initial() -> Self {
        SupervisorState { conn: None, just_closed: false, connecting: None }
    }

    /// The address of the owned connection, if there is one.
    pub open spec fn conn_addr(self) -> Option<ServerAddr> {
        match self.conn {
            Some(c) => Some(c.addr),
            None => None,
        }
    }

    /// The address that `cmd` makes the supervisor connect to, if any.
    /// `Reconnect` goes back to the owned connection's address and does
    /// nothing without one; a terminated subscription counts as a reconnect
    /// unless it follows an explicit close.
    pub open spec fn connect_target(self, cmd: TokioMessage) -> Option<ServerAddr> {
        match cmd {
            TokioMessage::Start(addr) => Some(addr),
            TokioMessage::Close => None,
            TokioMessage::Reconnect => self.conn_addr(),
            TokioMessage::SubscriptionTerminated => if self.just_closed {
                None
            } else {
                self.conn_addr()
            },
        }
    }

    /// The state once `cmd` has been taken, before any connection attempt that
    /// it asks for has ended. `Close` drops the connection and sets the
    /// suppression flag; a terminated subscription that meets the flag clears
    /// it; a connection attempt clears it too. Nothing else changes it.
    pub open spec fn after_command(self, cmd: TokioMessage) -> Self {
        match cmd {
            TokioMessage::Close => SupervisorState { conn: None, just_closed: true, connecting: None },
            _ => match self.connect_target(cmd) {
                Some(addr) => SupervisorState { just_closed: false, connecting: Some(addr), ..self },
                None => match cmd {
                    TokioMessage::SubscriptionTerminated => SupervisorState {
                        just_closed: false,
                        ..self
                    },
                    _ => self,
                },
            },
        }
    }

    /// The state once the attempt in progress has ended with `result`: on
    /// success the new handle replaces the owned one; on failure no
    /// connection is owned any more.
    pub open spec fn after_connect(self, result: Result<H, ConnectError>) -> Self {
        match (result, self.connecting) {
            (Ok(handle), Some(addr)) => SupervisorState {
                conn: Some(Connection { handle, addr }),
                connecting: None,
                ..self
            },
            _ => SupervisorState { conn: None, connecting: None, ..self },
        }
    }

    /// One command processed to completion; `outcome` is how the connection
    /// attempt ends, if the command makes one.
    pub open spec fn step(self, cmd: TokioMessage, outcome: Result<H, ConnectError>) -> Self {
        let s = self.after_command(cmd);
        if s.connecting is Some {
            s.after_connect(outcome)
        } else {
            s
        }
    }

    /// The commands processed one after another in queue order; `outcomes[i]`
    /// is how the attempt made for `cmds[i]`, if any, ends.
    pub open spec fn run(self, cmds: Seq<TokioMessage>, outcomes: Seq<Result<H, ConnectError>>) -> Self
        decreases cmds.len(),
    {
        if cmds.len() == 0 {
            self
        } else {
            self.run(cmds.drop_last(), outcomes.drop_last()).step(
                cmds.last(),
                outcomes[cmds.len() - 1],
            )
        }
    }
}

/// The decisions of the connection supervisor. It owns at most one connection
/// and takes one command at a time; a command that needs a connection attempt
/// names the address, and the attempt's outcome is handed back before the next
/// command is taken.
pub struct Supervisor<H> {
    conn: Option<Connection<H>>,
    just_closed: bool,
    connecting: Option<ServerAddr>,
}

impl<H> View for Supervisor<H> {
    type V = SupervisorState<H>;

    closed spec fn view(&self) -> SupervisorState<H> {
        SupervisorState {
            conn: self.conn,
            just_closed: self.just_closed,
            connecting: self.connecting,
        }
    }
}

impl<H> Supervisor<H> {
    pub fn new() -> (r: Self)
        ensures
            r@ == SupervisorState::<H>::initial(),
    {
        Supervisor { conn: None, just_closed: false, connecting: None }
    }

    /// Whether a connection attempt is in progress.
    pub fn is_connecting(&self) -> (r: bool)
        ensures
            r == (self@.connecting is Some),
    {
        self.connecting.is_some()
    }

    /// The address of the owned connection, if there is one.
    pub fn connected_addr(&self) -> (r: Option<ServerAddr>)
        ensures
            r == self@.conn_addr(),
    {
        match &self.conn {
            Some(c) => Some(c.addr),
            None => None,
        }
    }

    /// Takes one command. Returns the address to connect to, if the command
    /// asks for a connection attempt; its outcome then goes to
    /// `finish_connect`.
    pub fn handle_command(&mut self, msg: TokioMessage) -> (r: Option<ServerAddr>)
        requires
            old(self)@.connecting is None,
        ensures
            r == old(self)@.connect_target(msg),
            final(self)@ == old(self)@.after_command(msg),
            (final(self)@.connecting is Some) == (r is Some),
    {
        let target = match &msg {
            TokioMessage::Start(addr) => Some(*addr),
            TokioMessage::Close => None,
            TokioMessage::Reconnect => self.connected_addr(),
            TokioMessage::SubscriptionTerminated => if self.just_closed {
                None
            } else {
                self.connected_addr()
            },
        };
        match msg {
            TokioMessage::Close => {
                self.conn = None;
                self.just_closed = true;
            },
            TokioMessage::SubscriptionTerminated => {
                self.just_closed = false;
                self.connecting = target;
            },
            _ => {
                if target.is_some() {
                    self.just_closed = false;
                }
                self.connecting = target;
            },
        }
        target
    }

    /// Ends the connection attempt in progress with its outcome and returns
    /// the event that reports it.
    pub fn finish_connect(&mut self, result: Result<H, ConnectError>) -> (r: EguiMessage)
        requires
            old(self)@.connecting is Some,
        ensures
            final(self)@ == old(self)@.after_connect(result),
            r == connect_event(result),
    {
        let addr = self.connecting.unwrap();
        self.connecting = None;
        match result {
            Ok(handle) => {
                self.conn = Some(Connection { handle, addr });
                EguiMessage::StartResult(Ok(()))
            },
            Err(e) => {
                self.conn = None;
                EguiMessage::StartResult(Err(e))
            },
        }
    }
}

/// Commands are processed strictly in queue order: processing `a` and then
/// `b` leaves the same state as processing `a` followed by `b` in one run,
/// and a run that starts with no attempt in progress ends with none, since
/// each command's attempt ends before the next command is taken.
pub proof fn lemma_commands_serialized<H>(
    s: SupervisorState<H>,
    a: Seq<TokioMessage>,
    oa: Seq<Result<H, ConnectError>>,
    b: Seq<TokioMessage>,
    ob: Seq<Result<H, ConnectError>>,
)
    requires
        oa.len() == a.len(),
        ob.len() == b.len(),
    ensures
        s.run(a + b, oa + ob) == s.run(a, oa).run(b, ob),
        s.connecting is None ==> s.run(a + b, oa + ob).connecting is None,
    decreases b.len(),
{
    if b.len() == 0 {
        assert(a + b =~= a);
        assert(oa + ob =~= oa);
    } else {
        lemma_commands_serialized(s, a, oa, b.drop_last(), ob.drop_last());
        assert((a + b).drop_last() =~= a + b.drop_last());
        assert((oa + ob).drop_last() =~= oa + ob.drop_last());
        assert((a + b).last() == b.last());
        assert((oa + ob)[(a + b).len() - 1] == ob[b.len() - 1]);
    }
}

/// After a successful `Start(addr)` and a `Close`, a terminated subscription
/// makes no connection attempt, so no connection result is reported, and the
/// supervisor stays without a connection.
pub proof fn lemma_close_suppresses_reconnect<H>(s: SupervisorState<H>, addr: ServerAddr, handle: H)
    requires
        s.connecting is None,
    ensures
        ({
            let opened = s.after_command(TokioMessage::Start(addr)).after_connect(Ok(handle));
            let closed = opened.after_command(TokioMessage::Close);
            &&& opened.conn_addr() == Some(addr)
            &&& closed.conn is None
            &&& closed.connect_target(TokioMessage::SubscriptionTerminated) is None
            &&& closed.after_command(TokioMessage::SubscriptionTerminated).conn is None
            &&& closed.after_command(TokioMessage::SubscriptionTerminated).connecting is None
        }),
{
}

/// After a successful `Start(addr)`, a terminated subscription with no `Close`
/// before it makes exactly one connection attempt, to `addr`.
pub proof fn lemma_reconnect_after_drop<H>(s: SupervisorState<H>, addr: ServerAddr, handle: H)
    requires
        s.connecting is None,
    ensures
        ({
            let opened = s.after_command(TokioMessage::Start(addr)).after_connect(Ok(handle));
            &&& opened.connect_target(TokioMessage::SubscriptionTerminated) == Some(addr)
            &&& opened.after_command(TokioMessage::SubscriptionTerminated).connecting == Some(addr)
        }),
{
}

} // verus!
