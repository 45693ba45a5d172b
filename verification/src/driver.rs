//! The order of the report, as a machine that asks and is answered.
//!
//! The machine does no work on the outside itself. [`Driver::request`] says
//! what to do next, the caller does it and hands the answer to
//! [`Driver::accept`], which returns the lines to print and moves on. The
//! first failure ends the report: nothing is asked or printed after it.
//!
//! Memory is reported as the total of all modules, and every adapter
//! instance of the display class is reported, in the order in which the
//! configuration database lists them.

use crate::records::{total_bytes, total_capacity, Baseboard, CPU, RAM};
use crate::registry::{adapter_names, adapter_subkeys, texts};
use crate::report::{
    baseboard_line, baseboard_line_text, cpu_line, cpu_line_text, gpu_line, gpu_line_text,
    gpu_ram_line, gpu_ram_line_text, ram_line, ram_line_text,
};
use vstd::prelude::*;
use vstd::string::*;

verus! {

/// What went wrong. A capacity that does not read as a number is no fault:
/// it counts as zero and the report goes on.
#[derive(Clone, Copy, Debug, PartialEq, Eq, Structural)]
pub enum FaultKind {
    /// The instrumentation could not be reached or set up.
    Connection,
    /// A query failed, or its answer did not have the expected shape.
    Query,
    /// The display class, or an adapter instance below it, could not be
    /// opened.
    RegistryPath,
    /// A value of an adapter instance is missing or of another type.
    RegistryValue,
}

/// Where the report stands: the answer that is awaited, or how it ended.
#[derive(Clone, Copy, Debug, PartialEq, Eq, Structural)]
pub enum Stage {
    Connect,
    Processors,
    Baseboards,
    Memory,
    OpenClass,
    ListSubkeys,
    OpenAdapter,
    ReadDescription,
    ReadMemorySize,
    Finished,
    Failed(FaultKind),
}

/// What the caller is to do next.
#[derive(Debug)]
pub enum Request {
    /// Connect to the instrumentation.
    Connect,
    /// Query the processors.
    QueryProcessors,
    /// Query the baseboards.
    QueryBaseboards,
    /// Query the memory modules.
    QueryMemory,
    /// Open the key of the display class.
    OpenClass,
    /// List the names of the child keys of the display class.
    ListSubkeys,
    /// Open the child key of this name.
    OpenAdapter(String),
    /// Read the driver's description from the key just opened.
    ReadDescription,
    /// Read the size of the memory from the key just opened.
    ReadMemorySize,
    /// Nothing: the report has ended.
    Stop,
}

/// The answer to a request.
#[derive(Debug)]
pub enum Reply {
    /// A connection or a key is open.
    Done,
    Processors(Vec<CPU>),
    Baseboards(Vec<Baseboard>),
    Memory(Vec<RAM>),
    Subkeys(Vec<String>),
    Text(String),
    Number(u64),
    /// The work failed; the text says how.
    Failed(String),
}

/// The state of the report, as contracts see it.
pub struct State {
    pub stage: Stage,
    /// The adapter instances not yet reported, the one being read first.
    pub pending: Seq<Seq<char>>,
    /// The description of the adapter being read, once it is known.
    pub description: Seq<char>,
    /// What the failed work said, once the report has failed.
    pub detail: Seq<char>,
}

/// The kind of a failure, by the stage in which it occurs. Of a report
/// that has failed, the kind it failed with.
pub open spec fn fault_kind(stage: Stage) -> FaultKind {
    match stage {
        Stage::Connect => FaultKind::Connection,
        Stage::Processors | Stage::Baseboards | Stage::Memory => FaultKind::Query,
        Stage::OpenClass | Stage::ListSubkeys | Stage::OpenAdapter => FaultKind::RegistryPath,
        Stage::ReadDescription | Stage::ReadMemorySize => FaultKind::RegistryValue,
        Stage::Finished => FaultKind::Query,
        Stage::Failed(kind) => kind,
    }
}

/// The name of a kind of failure, as the message begins.
pub open spec fn kind_label(kind: FaultKind) -> Seq<char> {
    match kind {
        FaultKind::Connection => "connection error"@,
        FaultKind::Query => "query error"@,
        FaultKind::RegistryPath => "registry path error"@,
        FaultKind::RegistryValue => "registry value error"@,
    }
}

/// The report has ended, well or not.
pub open spec fn ended(stage: Stage) -> bool {
    stage is Finished || stage is Failed
}

/// The stage after an adapter, or after the listing: the next adapter, or
/// the end.
pub open spec fn adapter_stage(pending: Seq<Seq<char>>) -> Stage {
    if pending.len() > 0 {
        Stage::OpenAdapter
    } else {
        Stage::Finished
    }
}

impl State {
    /// Before anything was asked.
    pub open spec fn initial() -> State {
        State {
            stage: Stage::Connect,
            pending: Seq::empty(),
            description: Seq::empty(),
            detail: Seq::empty(),
        }
    }

    /// While an adapter is read, it is the first of those pending.
    pub open spec fn valid(self) -> bool {
        (self.stage is OpenAdapter || self.stage is ReadDescription || self.stage
            is ReadMemorySize) ==> self.pending.len() > 0
    }

    /// The same state in another stage.
    pub open spec fn at(self, stage: Stage) -> State {
        State { stage, ..self }
    }

    /// The state after a failure in this one.
    pub open spec fn failed(self, detail: Seq<char>) -> State {
        State { stage: Stage::Failed(fault_kind(self.stage)), detail, ..self }
    }

    /// The code the process exits with once the report has ended.
    pub open spec fn exit_code(self) -> Option<u8> {
        match self.stage {
            Stage::Finished => Some(0u8),
            Stage::Failed(_) => Some(1u8),
            _ => None,
        }
    }

    /// The message of a failed report: the kind's name, a colon and a space,
    /// and what the failed work said.
    pub open spec fn error_message(self) -> Option<Seq<char>> {
        match self.stage {
            Stage::Failed(kind) => Some(kind_label(kind) + ": "@ + self.detail),
            _ => None,
        }
    }
}

/// The state after an answer, and the lines that the answer gives.
///
/// Once the report has ended nothing changes and nothing is printed. A
/// failure, an answer of another shape than the one asked for, and a memory
/// total beyond 128 bits end the report with a failure of the stage's kind.
pub open spec fn step(s: State, reply: Reply) -> (State, Seq<Seq<char>>) {
    let nothing = Seq::<Seq<char>>::empty();
    if ended(s.stage) {
        (s, nothing)
    } else {
        match (s.stage, reply) {
            (_, Reply::Failed(detail)) => (s.failed(detail@), nothing),
            (Stage::Connect, Reply::Done) => (s.at(Stage::Processors), nothing),
            (Stage::Processors, Reply::Processors(list)) => (
                s.at(Stage::Baseboards),
                seq![cpu_line_text(list@)],
            ),
            (Stage::Baseboards, Reply::Baseboards(list)) => (
                s.at(Stage::Memory),
                seq![baseboard_line_text(list@)],
            ),
            (Stage::Memory, Reply::Memory(list)) => if total_bytes(list@) <= u128::MAX {
                (s.at(Stage::OpenClass), seq![ram_line_text(total_bytes(list@) as u128)])
            } else {
                (s.failed("memory capacities exceed 128 bits"@), nothing)
            },
            (Stage::OpenClass, Reply::Done) => (s.at(Stage::ListSubkeys), nothing),
            (Stage::ListSubkeys, Reply::Subkeys(names)) => {
                let pending = adapter_names(texts(names@));
                (State { stage: adapter_stage(pending), pending, ..s }, nothing)
            },
            (Stage::OpenAdapter, Reply::Done) => (s.at(Stage::ReadDescription), nothing),
            (Stage::ReadDescription, Reply::Text(text)) => (
                State { stage: Stage::ReadMemorySize, description: text@, ..s },
                nothing,
            ),
            (Stage::ReadMemorySize, Reply::Number(size)) => {
                let pending = s.pending.drop_first();
                (
                    State { stage: adapter_stage(pending), pending, ..s },
                    seq![gpu_line_text(s.description), gpu_ram_line_text(size)],
                )
            },
            _ => (s.failed("unexpected reply"@), nothing),
        }
    }
}

/// Whether a request is the one that a state asks for.
pub open spec fn asks(s: State, request: Request) -> bool {
    match s.stage {
        Stage::Connect => request is Connect,
        Stage::Processors => request is QueryProcessors,
        Stage::Baseboards => request is QueryBaseboards,
        Stage::Memory => request is QueryMemory,
        Stage::OpenClass => request is OpenClass,
        Stage::ListSubkeys => request is ListSubkeys,
        Stage::OpenAdapter => request matches Request::OpenAdapter(name) && s.pending.len() > 0
            && name@ == s.pending[0],
        Stage::ReadDescription => request is ReadDescription,
        Stage::ReadMemorySize => request is ReadMemorySize,
        Stage::Finished | Stage::Failed(_) => request is Stop,
    }
}

/// A step keeps a valid state valid.
pub proof fn lemma_step_keeps_valid(s: State, reply: Reply)
    requires
        s.valid(),
    ensures
        step(s, reply).0.valid(),
{
}

/// Once the report has ended, no answer changes it or prints anything.
pub proof fn lemma_ended_is_final(s: State, reply: Reply)
    requires
        ended(s.stage),
    ensures
        step(s, reply) == (s, Seq::<Seq<char>>::empty()),
{
}

/// A failure ends the report at once: it prints nothing, the kind of the
/// failure is that of the stage it occurred in, the exit code is not zero,
/// the message is not empty, and nothing more is asked.
pub proof fn lemma_failure_ends(s: State, reply: Reply)
    requires
        !ended(s.stage),
        reply is Failed,
    ensures
        step(s, reply).1.len() == 0,
        step(s, reply).0.stage == Stage::Failed(fault_kind(s.stage)),
        step(s, reply).0.exit_code() == Some(1u8),
        step(s, reply).0.error_message() matches Some(message) && message.len() > 0,
        forall|request: Request| #[trigger] asks(step(s, reply).0, request) ==> request is Stop,
{
    reveal_strlit(": ");
}

/// When the instrumentation cannot be reached, the report fails with a
/// connection error before any line is printed, and whatever is answered
/// afterwards prints none either.
pub proof fn lemma_connection_failure(reply: Reply, later: Reply)
    requires
        reply is Failed,
    ensures
        step(State::initial(), reply).1.len() == 0,
        step(State::initial(), reply).0.stage == Stage::Failed(FaultKind::Connection),
        step(State::initial(), reply).0.exit_code() != Some(0u8),
        step(State::initial(), reply).0.error_message() matches Some(message) && message.len() > 0,
        step(step(State::initial(), reply).0, later) == (
            step(State::initial(), reply).0,
            Seq::<Seq<char>>::empty(),
        ),
{
    lemma_failure_ends(State::initial(), reply);
}

/// The report ends well only after the last adapter that was listed, and
/// from then on asks for nothing.
pub proof fn lemma_finished_asks_nothing(s: State, request: Request)
    requires
        s.stage is Finished,
        asks(s, request),
    ensures
        request is Stop,
        s.exit_code() == Some(0u8),
        s.error_message() is None,
{
}

/// The report in progress.
pub struct Driver {
    stage: Stage,
    /// The adapter instances that were listed.
    adapters: Vec<String>,
    /// How many of them have been reported.
    reported: usize,
    description: String,
    detail: String,
}

impl View for Driver {
    type V = State;

    closed spec fn view(&self) -> State {
        State {
            stage: self.stage,
            pending: texts(self.adapters@.subrange(self.reported as int, self.adapters@.len() as int)),
            description: self.description@,
            detail: self.detail@,
        }
    }
}

impl Driver {
    #[verifier::type_invariant]
    spec fn well_formed(self) -> bool {
        &&& self.reported <= self.adapters@.len()
        &&& self@.valid()
    }

    /// A report of which nothing has been asked yet.
    pub fn new() -> (driver: Driver)
        ensures
            driver@ == State::initial(),
    {
        let driver = Driver {
            stage: Stage::Connect,
            adapters: Vec::new(),
            reported: 0,
            description: String::new(),
            detail: String::new(),
        };
        assert(driver@.pending =~= Seq::<Seq<char>>::empty());
        driver
    }

    /// What to do next.
    pub fn request(&self) -> (request: Request)
        ensures
            asks(self@, request),
            self@.valid(),
    {
        proof {
            use_type_invariant(self);
        }
        match self.stage {
            Stage::Connect => Request::Connect,
            Stage::Processors => Request::QueryProcessors,
            Stage::Baseboards => Request::QueryBaseboards,
            Stage::Memory => Request::QueryMemory,
            Stage::OpenClass => Request::OpenClass,
            Stage::ListSubkeys => Request::ListSubkeys,
            Stage::OpenAdapter => Request::OpenAdapter(self.adapters[self.reported].clone()),
            Stage::ReadDescription => Request::ReadDescription,
            Stage::ReadMemorySize => Request::ReadMemorySize,
            Stage::Finished | Stage::Failed(_) => Request::Stop,
        }
    }

    /// Ends the report with a failure of the present stage's kind.
    fn fail(&mut self, detail: String)
        requires
            !ended(old(self)@.stage),
        ensures
            final(self)@ == old(self)@.failed(detail@),
    {
        let kind = match self.stage {
            Stage::Connect => FaultKind::Connection,
            Stage::Processors | Stage::Baseboards | Stage::Memory => FaultKind::Query,
            Stage::OpenClass | Stage::ListSubkeys | Stage::OpenAdapter => FaultKind::RegistryPath,
            Stage::ReadDescription | Stage::ReadMemorySize => FaultKind::RegistryValue,
            Stage::Finished => FaultKind::Query,
            Stage::Failed(kind) => kind,
        };
        proof {
            use_type_invariant(&*self);
        }
        self.stage = Stage::Failed(kind);
        self.detail = detail;
    }

    /// Takes the answer to the present request, and returns the lines to
    /// print for it.
    pub fn accept(&mut self, reply: Reply) -> (lines: Vec<String>)
        ensures
            final(self)@ == step(old(self)@, reply).0,
            texts(lines@) == step(old(self)@, reply).1,
    {
        proof {
            use_type_invariant(&*self);
        }
        let mut lines: Vec<String> = Vec::new();
        assert(texts(lines@) =~= Seq::<Seq<char>>::empty());
        match (self.stage, reply) {
            (Stage::Finished, _) | (Stage::Failed(_), _) => {},
            (_, Reply::Failed(detail)) => {
                self.fail(detail);
            },
            (Stage::Connect, Reply::Done) => {
                self.stage = Stage::Processors;
            },
            (Stage::Processors, Reply::Processors(list)) => {
                lines.push(cpu_line(&list));
                self.stage = Stage::Baseboards;
                assert(texts(lines@) =~= seq![cpu_line_text(list@)]);
            },
            (Stage::Baseboards, Reply::Baseboards(list)) => {
                lines.push(baseboard_line(&list));
                self.stage = Stage::Memory;
                assert(texts(lines@) =~= seq![baseboard_line_text(list@)]);
            },
            (Stage::Memory, Reply::Memory(list)) => {
                match total_capacity(&list) {
                    Some(total) => {
                        lines.push(ram_line(total));
                        self.stage = Stage::OpenClass;
                        assert(texts(lines@) =~= seq![ram_line_text(total)]);
                    },
                    None => {
                        self.fail(String::from_str("memory capacities exceed 128 bits"));
                    },
                }
            },
            (Stage::OpenClass, Reply::Done) => {
                self.stage = Stage::ListSubkeys;
            },
            (Stage::ListSubkeys, Reply::Subkeys(names)) => {
                let adapters = adapter_subkeys(&names);
                self.reported = 0;
                self.adapters = adapters;
                assert(self.adapters@.subrange(0, self.adapters@.len() as int) =~= self.adapters@);
                self.stage = if self.adapters.len() > 0 {
                    Stage::OpenAdapter
                } else {
                    Stage::Finished
                };
            },
            (Stage::OpenAdapter, Reply::Done) => {
                self.stage = Stage::ReadDescription;
            },
            (Stage::ReadDescription, Reply::Text(text)) => {
                self.description = text;
                self.stage = Stage::ReadMemorySize;
            },
            (Stage::ReadMemorySize, Reply::Number(size)) => {
                lines.push(gpu_line(self.description.as_str()));
                lines.push(gpu_ram_line(size));
                assert(texts(lines@) =~= seq![
                    gpu_line_text(self.description@),
                    gpu_ram_line_text(size),
                ]);
                let ghost before = self@.pending;
                assert(before.len() == self.adapters@.len() - self.reported);
                let listed = self.adapters.len();
                if self.reported + 1 < listed {
                    self.reported = self.reported + 1;
                    self.stage = Stage::OpenAdapter;
                } else {
                    self.stage = Stage::Finished;
                    self.reported = self.reported + 1;
                }
                assert(self@.pending =~= before.drop_first());
            },
            _ => {
                self.fail(String::from_str("unexpected reply"));
            },
        }
        lines
    }

    /// The code to exit with: 0 when the report is complete, 1 when it
    /// failed, none while it is under way.
    pub fn exit_code(&self) -> (code: Option<u8>)
        ensures
            code == self@.exit_code(),
    {
        match self.stage {
            Stage::Finished => Some(0u8),
            Stage::Failed(_) => Some(1u8),
            _ => None,
        }
    }

    /// The message for the error stream, when the report has failed.
    pub fn error_message(&self) -> (message: Option<String>)
        ensures
            match self@.error_message() {
                Some(text) => message matches Some(m) && m@ == text,
                None => message is None,
            },
    {
        match self.stage {
            Stage::Failed(kind) => {
                let label = match kind {
                    FaultKind::Connection => "connection error",
                    FaultKind::Query => "query error",
                    FaultKind::RegistryPath => "registry path error",
                    FaultKind::RegistryValue => "registry value error",
                };
                let mut message = String::from_str(label);
                message.append(": ");
                message.append(self.detail.as_str());
                Some(message)
            },
            _ => None,
        }
    }
}

} // verus!
