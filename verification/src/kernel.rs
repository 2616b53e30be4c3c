//! Kernel state tracker and the running-kernel session record.
//!
//! A kernel session is a closed sum over {Starting, Running, ErroredLaunch,
//! ShuttingDown, Shutdown}. Transitions are one-directional: Starting moves
//! to Running or ErroredLaunch, Running to ShuttingDown to Shutdown, and
//! ErroredLaunch and Shutdown are terminal. A running kernel carries its
//! execution status and latest kernel-info reply, overwritten on each
//! update; updates to any other state are dropped.

use vstd::prelude::*;
use vstd::string::StringExecFns;
use crate::command::{CommandError, LaunchCommand, command_diagnosis, substituted_args};
use crate::connection::{
    ConnectionInfo, connection_file_name, connection_json, connection_path, new_session_key,
    write_connection_file,
};
use crate::kernelspec::RuntimeSpecification;
use crate::ports::peek_ports;
use crate::storage::{FsEntry, Storage};

verus! {

/// The busy/idle status a kernel reports on its broadcast channel.
#[derive(Clone, Copy, PartialEq, Eq, Structural, Debug)]
pub enum ExecutionState {
    Idle,
    Busy,
}

/// The part of a kernel-info reply that the session keeps: the language and
/// the banner the kernel announced.
#[derive(Debug)]
pub struct KernelInfo {
    pub language: String,
    pub banner: String,
}

impl KernelInfo {
    /// A copy of this kernel-info record with the same content.
    pub fn duplicate(&self) -> (r: KernelInfo)
        ensures
            r == *self,
    {
        KernelInfo { language: self.language.clone(), banner: self.banner.clone() }
    }
}

/// The urgency colors a state indicator can take.
#[derive(Clone, Copy, PartialEq, Eq, Structural, Debug)]
pub enum Color {
    Success,
    Modified,
    Error,
    Disabled,
}

/// A visual state indicator: a dot of one color.
#[derive(Clone, Copy, PartialEq, Eq, Structural, Debug)]
pub struct Indicator {
    pub color: Color,
}

impl Indicator {
    pub fn dot(color: Color) -> (r: Indicator)
        ensures
            r.color == color,
    {
        Indicator { color }
    }
}

/// A running kernel session: the path of its persisted connection
/// descriptor, its current execution status, and the most recent
/// kernel-info reply, if one arrived yet.
#[derive(Debug)]
pub struct RunningKernel {
    pub connection_path: String,
    pub execution_state: ExecutionState,
    pub kernel_info: Option<KernelInfo>,
}

impl RunningKernel {
    /// Tears the session down: removes the persisted connection-descriptor
    /// file, unconditionally. This is the release half of the descriptor
    /// file's lifetime, run exactly when the running kernel goes away.
    pub fn teardown<S: Storage>(self, storage: &mut S)
        ensures
            final (storage).model() == old(storage).model().remove(self.connection_path@),
    {
        storage.remove_file(&self.connection_path);
    }
}

/// One logical kernel session, in exactly one of its five states.
#[derive(Debug)]
pub enum Kernel {
    RunningKernel(RunningKernel),
    StartingKernel,
    ErroredLaunch(String),
    ShuttingDown,
    Shutdown,
}

/// The indicator derived from a kernel state: a pure function of the state
/// and, when running, of the busy/idle status.
pub open spec fn dot_spec(k: Kernel) -> Indicator {
    match k {
        Kernel::RunningKernel(rk) => match rk.execution_state {
            ExecutionState::Idle => Indicator { color: Color::Success },
            ExecutionState::Busy => Indicator { color: Color::Modified },
        },
        Kernel::StartingKernel => Indicator { color: Color::Modified },
        Kernel::ErroredLaunch(_) => Indicator { color: Color::Error },
        Kernel::ShuttingDown => Indicator { color: Color::Modified },
        Kernel::Shutdown => Indicator { color: Color::Disabled },
    }
}

/// A status update applies only to a running kernel; every other state
/// drops it.
pub open spec fn with_execution_state(k: Kernel, status: ExecutionState) -> Kernel {
    match k {
        Kernel::RunningKernel(rk) => Kernel::RunningKernel(
            RunningKernel {
                connection_path: rk.connection_path,
                execution_state: status,
                kernel_info: rk.kernel_info,
            },
        ),
        _ => k,
    }
}

/// A kernel-info update applies only to a running kernel; every other
/// state drops it.
pub open spec fn with_kernel_info(k: Kernel, info: KernelInfo) -> Kernel {
    match k {
        Kernel::RunningKernel(rk) => Kernel::RunningKernel(
            RunningKernel {
                connection_path: rk.connection_path,
                execution_state: rk.execution_state,
                kernel_info: Some(info),
            },
        ),
        _ => k,
    }
}

/// The state machine's transition relation: Starting moves to Running or
/// ErroredLaunch, Running to ShuttingDown, ShuttingDown to Shutdown, and
/// nothing leaves ErroredLaunch or Shutdown.
pub open spec fn transition(pre: Kernel, post: Kernel) -> bool {
    ||| (pre is StartingKernel && (post is RunningKernel || post is ErroredLaunch))
    ||| (pre is RunningKernel && post is ShuttingDown)
    ||| (pre is ShuttingDown && post is Shutdown)
}

/// Law: a starting kernel only ever moves to Running or ErroredLaunch,
/// never back to Starting or anywhere else.
pub proof fn lemma_starting_transitions(pre: Kernel, post: Kernel)
    requires
        transition(pre, post),
        pre is StartingKernel,
    ensures
        post is RunningKernel || post is ErroredLaunch,
{
}

/// Law: no transition produces a starting kernel: Starting is never
/// re-entered once left.
pub proof fn lemma_never_back_to_starting(pre: Kernel, post: Kernel)
    requires
        transition(pre, post),
    ensures
        !(post is StartingKernel),
{
}

/// Law: ErroredLaunch and Shutdown are terminal: no transition leaves them.
pub proof fn lemma_terminal_states(pre: Kernel, post: Kernel)
    requires
        transition(pre, post),
    ensures
        !(pre is ErroredLaunch),
        !(pre is Shutdown),
{
}

/// Law: Shutdown is absorbing for status and kernel-info messages: after
/// it, updates leave the state unchanged.
pub proof fn lemma_shutdown_absorbing(k: Kernel, status: ExecutionState, info: KernelInfo)
    requires
        k is Shutdown,
    ensures
        with_execution_state(k, status) == k,
        with_kernel_info(k, info) == k,
{
}

impl Kernel {
    /// The indicator for this state, exactly as `dot_spec` derives it.
    pub fn dot(&mut self) -> (r: Indicator)
        ensures
            *final (self) == *old(self),
            r == dot_spec(*old(self)),
    {
        match &*self {
            Kernel::RunningKernel(kernel) => match kernel.execution_state {
                ExecutionState::Idle => Indicator::dot(Color::Success),
                ExecutionState::Busy => Indicator::dot(Color::Modified),
            },
            Kernel::StartingKernel => Indicator::dot(Color::Modified),
            Kernel::ErroredLaunch(_) => Indicator::dot(Color::Error),
            Kernel::ShuttingDown => Indicator::dot(Color::Modified),
            Kernel::Shutdown => Indicator::dot(Color::Disabled),
        }
    }

    /// Applies a reported busy/idle status, exactly as
    /// `with_execution_state` says: dropped unless the kernel is running.
    pub fn set_execution_state(&mut self, status: &ExecutionState)
        ensures
            *final (self) == with_execution_state(*old(self), *status),
    {
        match self {
            Kernel::RunningKernel(running_kernel) => {
                running_kernel.execution_state = *status;
            },
            _ => {},
        }
    }

    /// Caches a kernel-info reply, exactly as `with_kernel_info` says:
    /// dropped unless the kernel is running.
    pub fn set_kernel_info(&mut self, kernel_info: &KernelInfo)
        ensures
            *final (self) == with_kernel_info(*old(self), *kernel_info),
    {
        match self {
            Kernel::RunningKernel(running_kernel) => {
                running_kernel.kernel_info = Some(kernel_info.duplicate());
            },
            _ => {},
        }
    }

    /// Resolves an in-flight launch: a starting kernel becomes running on
    /// success and errored, with the failure's message, otherwise.
    pub fn finish_launch(&mut self, outcome: Result<RunningKernel, String>)
        requires
            (*old(self)) is StartingKernel,
        ensures
            transition(*old(self), *final (self)),
            match outcome {
                Ok(rk) => *final (self) == Kernel::RunningKernel(rk),
                Err(msg) => *final (self) == Kernel::ErroredLaunch(msg),
            },
    {
        match outcome {
            Ok(rk) => {
                *self = Kernel::RunningKernel(rk);
            },
            Err(msg) => {
                *self = Kernel::ErroredLaunch(msg);
            },
        }
    }

    /// Begins teardown of a running kernel: the session moves to
    /// ShuttingDown and the connection-descriptor file is removed.
    pub fn begin_shutdown<S: Storage>(&mut self, storage: &mut S)
        requires
            (*old(self)) is RunningKernel,
        ensures
            transition(*old(self), *final (self)),
            *final (self) == Kernel::ShuttingDown,
            final (storage).model() == old(storage).model().remove(
                old(self)->RunningKernel_0.connection_path@,
            ),
    {
        match &*self {
            Kernel::RunningKernel(running_kernel) => {
                storage.remove_file(&running_kernel.connection_path);
            },
            _ => {},
        }
        *self = Kernel::ShuttingDown;
    }

    /// Finishes teardown: a shutting-down session becomes Shutdown.
    pub fn complete_shutdown(&mut self)
        requires
            (*old(self)) is ShuttingDown,
        ensures
            transition(*old(self), *final (self)),
            *final (self) == Kernel::Shutdown,
    {
        *self = Kernel::Shutdown;
    }
}

/// Why a launch attempt failed before the process could be spawned.
#[derive(Debug)]
pub enum LaunchError {
    /// A port could not be allocated.
    PortAllocation,
    /// The kernelspec's argv template failed validation.
    SpecValidation(CommandError),
    /// The connection descriptor could not be persisted.
    Persist,
}

impl RunningKernel {
    /// Prepares a kernel launch: validates the argv template, allocates
    /// five distinct loopback ports, builds the connection descriptor with
    /// a fresh session key, persists it at the session's deterministic
    /// path, and returns the session record with the descriptor and the
    /// spawn plan. No process is spawned here; validation failure aborts
    /// before any port is bound or any file is written.
    pub fn new<S: Storage>(
        runtime_specification: &RuntimeSpecification,
        entity_id: u64,
        runtime_dir: &String,
        storage: &mut S,
    ) -> (r: Result<(RunningKernel, ConnectionInfo, LaunchCommand), LaunchError>)
        ensures
            ({
                let path = runtime_dir@ + "/"@ + connection_file_name(entity_id as nat);
                let argv = runtime_specification@.kernelspec.argv;
                match r {
                    Ok((kernel, info, cmd)) => {
                        &&& command_diagnosis(argv) is None
                        &&& info@.transport == "tcp"@
                        &&& info@.ip == "127.0.0.1"@
                        &&& info@.signature_scheme == "hmac-sha256"@
                        &&& info@.key.len() == 36
                        &&& info@.kernel_name == "zed-"@ + runtime_specification@.name
                        &&& distinct_ports(info@.stdin_port, info@.control_port, info@.hb_port,
                            info@.shell_port, info@.iopub_port)
                        &&& final (storage).model() == old(storage).model().insert(
                            path,
                            FsEntry::File(connection_json(info@)),
                        )
                        &&& cmd@.program == argv[0]
                        &&& cmd@.args == substituted_args(argv, path)
                        &&& cmd@.env == runtime_specification@.kernelspec.env
                        &&& kernel.connection_path@ == path
                        &&& kernel.execution_state is Busy
                        &&& kernel.kernel_info is None
                    },
                    Err(e) => {
                        &&& final (storage).model() == old(storage).model()
                        &&& (e is SpecValidation <==> command_diagnosis(argv) is Some)
                        &&& match e {
                            LaunchError::SpecValidation(ce) => command_diagnosis(argv) == Some(ce),
                            _ => true,
                        }
                    },
                }
            }),
    {
        let path = connection_path(runtime_dir, entity_id);
        let cmd = match runtime_specification.command(&path) {
            Ok(cmd) => cmd,
            Err(e) => {
                return Err(LaunchError::SpecValidation(e));
            },
        };
        let ports = match peek_ports() {
            Some(ports) => ports,
            None => {
                return Err(LaunchError::PortAllocation);
            },
        };
        let key = new_session_key();
        let mut kernel_name = "zed-".to_owned();
        kernel_name.append(runtime_specification.name.as_str());
        let info = ConnectionInfo::build(&ports, key, kernel_name);
        if !write_connection_file(&info, &path, storage) {
            return Err(LaunchError::Persist);
        }
        let kernel = RunningKernel {
            connection_path: path,
            execution_state: ExecutionState::Busy,
            kernel_info: None,
        };
        Ok((kernel, info, cmd))
    }
}

/// Five pairwise-distinct, nonzero port numbers.
pub open spec fn distinct_ports(a: u16, b: u16, c: u16, d: u16, e: u16) -> bool {
    &&& a != 0 && b != 0 && c != 0 && d != 0 && e != 0
    &&& a != b && a != c && a != d && a != e
    &&& b != c && b != d && b != e
    &&& c != d && c != e
    &&& d != e
}

} // verus!
