use vstd::prelude::*;

verus! {

#[verifier::external_type_specification]
#[verifier::external_body]
#[verifier::reject_recursive_types(T)]
pub struct ExSender<T>(tokio::sync::oneshot::Sender<T>);

#[verifier::external_type_specification]
#[verifier::external_body]
#[verifier::reject_recursive_types(T)]
pub struct ExReceiver<T>(tokio::sync::oneshot::Receiver<T>);

#[verifier::external_type_specification]
#[verifier::external_body]
pub struct ExRecvError(tokio::sync::oneshot::error::RecvError);

/// Relies on tokio::sync::oneshot::channel: creates a connected
/// sender/receiver pair for a single value.
pub assume_specification<T>[ tokio::sync::oneshot::channel::<T> ]() -> (r: (
    tokio::sync::oneshot::Sender<T>,
    tokio::sync::oneshot::Receiver<T>,
));

/// Relies on tokio::sync::oneshot::Sender::send: consumes the sender; when the
/// receiver is already gone, the value is handed back in `Err`.
pub assume_specification<T>[ tokio::sync::oneshot::Sender::<T>::send ](
    sender: tokio::sync::oneshot::Sender<T>,
    t: T,
) -> (r: Result<(), T>)
    ensures
        r matches Err(v) ==> v == t,
;

/// Where the orchestrator stands in its lifecycle.
#[derive(Clone, Copy, Debug, PartialEq, Eq, Structural)]
pub enum Phase {
    /// Created; the monitoring loop has not been entered.
    New,
    /// Inside the monitoring loop.
    Running,
    /// The loop has been left; no further checks follow.
    Stopped,
}

/// The one event the loop's wait woke up on. Exactly one event is taken per
/// iteration; its handling runs to completion before the next wait begins.
#[derive(Clone, Copy, Debug, PartialEq, Eq, Structural)]
pub enum DaemonEvent {
    /// The shutdown handle was used (an explicit stop request).
    ShutdownRequested,
    /// The process received an interrupt signal.
    Interrupted,
    /// The slower expiry-check timer elapsed.
    ExpiryTick,
    /// The faster warning-check timer elapsed.
    WarningTick,
}

/// What the host must do with the iteration that woke on an event.
#[derive(Clone, Copy, Debug, PartialEq, Eq, Structural)]
pub enum Directive {
    /// Leave the loop and return normally.
    ExitLoop,
    /// Run the expiry-check procedure; its errors are logged, never fatal.
    RunExpiryCheck,
    /// Run the warning-check procedure; its errors are logged, never fatal.
    RunWarningCheck,
}

/// The orchestrator's own state: its lifecycle phase and the single-use
/// shutdown handle. Everything else the daemon touches (inspector, sync
/// action, notifier, configuration) is handed in by the host per decision.
pub struct Daemon {
    phase: Phase,
    shutdown_tx: Option<tokio::sync::oneshot::Sender<()>>,
}

impl Daemon {
    /// Whether an un-consumed shutdown handle is held: a stop request can
    /// still reach the loop.
    pub closed spec fn armed(self) -> bool {
        self.shutdown_tx is Some
    }

    /// The lifecycle phase.
    pub closed spec fn phase(self) -> Phase {
        self.phase
    }

    /// The state a stop request leaves behind: the handle is gone, whatever it
    /// held; nothing else moves (see `lemma_stop_idempotent`).
    pub closed spec fn after_stop(self) -> Daemon {
        Daemon { shutdown_tx: None, ..self }
    }

    /// A fresh daemon: not yet running, no shutdown handle armed.
    pub fn new() -> (d: Daemon)
        ensures
            d.phase() == Phase::New,
            !d.armed(),
    {
        Daemon { phase: Phase::New, shutdown_tx: None }
    }

    /// The lifecycle phase, for the host and for tests.
    pub fn current_phase(&self) -> (p: Phase)
        ensures
            p == self.phase(),
    {
        self.phase
    }

    /// Whether an un-consumed shutdown handle is held, for the host and for
    /// tests.
    pub fn is_armed(&self) -> (b: bool)
        ensures
            b == self.armed(),
    {
        self.shutdown_tx.is_some()
    }

    /// Arm the shutdown handle and enter the monitoring loop, returning the
    /// receiver the host's wait listens on. `startup_sync_ok` records whether
    /// the startup reconciliation sync succeeded; the loop is entered either
    /// way — a startup failure is logged by the host, never fatal, as the
    /// contract's silence about `startup_sync_ok` states.
    pub fn enter_loop(&mut self, startup_sync_ok: bool) -> (rx: tokio::sync::oneshot::Receiver<
        (),
    >)
        ensures
            final(self).phase() == Phase::Running,
            final(self).armed(),
    {
        let (tx, rx) = tokio::sync::oneshot::channel();
        self.shutdown_tx = Some(tx);
        self.phase = Phase::Running;
        rx
    }

    /// The loop's dispatch: a stop request and an interrupt signal both end
    /// the loop identically; each timer tick runs its own check and nothing
    /// else — in particular, the warning cadence never reaches the sync path.
    pub fn on_event(&mut self, event: DaemonEvent) -> (directive: Directive)
        ensures
            final(self).armed() == old(self).armed(),
            (event == DaemonEvent::ShutdownRequested || event == DaemonEvent::Interrupted) ==> (
            directive == Directive::ExitLoop && final(self).phase() == Phase::Stopped),
            event == DaemonEvent::ExpiryTick ==> (directive == Directive::RunExpiryCheck
                && final(self).phase() == old(self).phase()),
            event == DaemonEvent::WarningTick ==> (directive == Directive::RunWarningCheck
                && final(self).phase() == old(self).phase()),
    {
        match event {
            DaemonEvent::ShutdownRequested | DaemonEvent::Interrupted => {
                self.phase = Phase::Stopped;
                Directive::ExitLoop
            },
            DaemonEvent::ExpiryTick => Directive::RunExpiryCheck,
            DaemonEvent::WarningTick => Directive::RunWarningCheck,
        }
    }

    /// Request shutdown. The first call consumes the handle and signals the
    /// loop; any later call finds no handle and is a harmless no-op.
    pub fn stop(&mut self) -> (signalled: bool)
        ensures
            signalled == old(self).armed(),
            *final(self) == old(self).after_stop(),
            !final(self).armed(),
            final(self).phase() == old(self).phase(),
    {
        match self.shutdown_tx.take() {
            Some(tx) => {
                // The loop may already have exited on an interrupt, dropping
                // the receiver; the request is then moot and the outcome is
                // deliberately ignored.
                let _ = tx.send(());
                true
            },
            None => false,
        }
    }
}

/// The outcome of one on-demand check, given how the sync action fared: the
/// single place a sync error is surfaced to the caller instead of being
/// swallowed into a log line.
pub fn run_once_outcome(sync_ok: bool, error_message: String) -> (r: Result<(), String>)
    ensures
        sync_ok <==> r is Ok,
        !sync_ok ==> (r matches Err(m) && m == error_message),
{
    if sync_ok {
        Ok(())
    } else {
        Err(error_message)
    }
}

/// Stopping is idempotent: the stop transition consumes the handle, so of two
/// consecutive stop requests at most the first signals the loop (exactly the
/// first, when the daemon was armed); the second changes nothing at all.
pub proof fn lemma_stop_idempotent(d: Daemon)
    ensures
        !d.after_stop().armed(),
        d.after_stop().phase() == d.phase(),
        d.after_stop().after_stop() == d.after_stop(),
{
}

} // verus!
