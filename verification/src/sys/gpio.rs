use vstd::prelude::*;
use vstd::string::StringSliceAdditionalSpecFns;
use super::fs::{
    control_path, decimal, decimal_digits, line_path, FileOpen, FileWrite, GPIOPinSelector,
    GPIOSelector,
};
use super::Edge;
use crate::is_root;
use crate::logic::{DigitalLogic, Logic};
use crate::result::Error;

verus! {

/// A control file of the kernel's GPIO interface.
#[derive(Debug, Copy, Clone, PartialEq, Eq, Structural)]
pub enum ControlFile {
    /// Takes the number of a line and makes its control files appear.
    Export,
    /// Takes the number of a line and makes its control files disappear.
    Unexport,
    /// The direction of a line.
    Direction(usize),
    /// The level of a line.
    Value(usize),
    /// The transitions of a line that make its value file ready.
    EdgeMode(usize),
}

/// What is written into a control file.
#[derive(Debug, Copy, Clone, PartialEq, Eq, Structural)]
pub enum Payload {
    /// The number of a line, in decimal.
    Line(usize),
    /// The direction of an input.
    In,
    /// The direction of an output.
    Out,
    /// The name of an edge mode.
    Trigger(Edge),
    /// The digit of a level.
    Level(Logic),
}

/// What the poller is asked to watch a descriptor for.
#[derive(Debug, Copy, Clone, PartialEq, Eq, Structural)]
pub struct Interest {
    /// The descriptor has something to read.
    pub readable: bool,
    /// Readiness is reported once for each change, not for as long as it lasts.
    pub edge_triggered: bool,
    /// The descriptor has urgent data: this is how the value file reports an interrupt.
    pub urgent: bool,
}

/// One thing to do to the kernel's GPIO interface, or to the poller. The
/// value file of an action is the one that the handle's claim opened.
#[derive(Debug, Copy, Clone, PartialEq, Eq, Structural)]
pub enum Action {
    /// Open the control file for reading and writing, write the payload and
    /// close the file. A best-effort write may fail without consequence.
    Write { file: ControlFile, payload: Payload, best_effort: bool },
    /// Open the control file and keep it as the handle's value file.
    Open { file: ControlFile, writable: bool },
    /// Seek to the start of the value file and read one byte.
    Sample,
    /// Write the digit of the level to the value file.
    Put { level: Logic },
    /// Read the value file to its end and discard what was read.
    Drain,
    /// Register the descriptor of the value file with the poller.
    Register { token: usize, interest: Interest },
    /// Take the descriptor of the value file off the poller.
    Deregister,
}

impl Edge {
    /// The name that the kernel gives the edge mode.
    pub open spec fn spec_name(self) -> &'static str {
        match self {
            Edge::NoInterrupt => "none",
            Edge::RisingEdge => "rising",
            Edge::FallingEdge => "falling",
            Edge::BothEdges => "both",
        }
    }

    /// Returns the name that the kernel gives the edge mode.
    pub fn name(self) -> (out: &'static str)
        ensures
            out == self.spec_name(),
    {
        match self {
            Edge::NoInterrupt => "none",
            Edge::RisingEdge => "rising",
            Edge::FallingEdge => "falling",
            Edge::BothEdges => "both",
        }
    }
}

impl Payload {
    /// The bytes that are written for the payload.
    pub open spec fn spec_bytes(self) -> Seq<u8> {
        match self {
            Payload::Line(n) => decimal_digits(n as nat),
            Payload::In => "in".spec_bytes(),
            Payload::Out => "out".spec_bytes(),
            Payload::Trigger(edge) => edge.spec_name().spec_bytes(),
            Payload::Level(level) => seq![level.spec_digit()],
        }
    }

    /// Returns the bytes that are written for the payload.
    pub fn bytes(self) -> (out: Vec<u8>)
        ensures
            out@ == self.spec_bytes(),
    {
        match self {
            Payload::Line(n) => decimal(n),
            Payload::In => vstd::slice::slice_to_vec("in".as_bytes()),
            Payload::Out => vstd::slice::slice_to_vec("out".as_bytes()),
            Payload::Trigger(edge) => vstd::slice::slice_to_vec(edge.name().as_bytes()),
            Payload::Level(level) => {
                let mut out: Vec<u8> = Vec::new();
                out.push(level.digit());
                assert(out@ =~= seq![level.spec_digit()]);
                out
            },
        }
    }
}

impl ControlFile {
    /// The path of the control file.
    pub open spec fn spec_path(self) -> Seq<u8> {
        match self {
            ControlFile::Export => control_path("export".spec_bytes()),
            ControlFile::Unexport => control_path("unexport".spec_bytes()),
            ControlFile::Direction(pin) => line_path(pin, "direction".spec_bytes()),
            ControlFile::Value(pin) => line_path(pin, "value".spec_bytes()),
            ControlFile::EdgeMode(pin) => line_path(pin, "edge".spec_bytes()),
        }
    }

    /// Returns the request to open the control file, for reading and
    /// writing or for reading only.
    pub fn open(self, writable: bool) -> (out: FileOpen)
        ensures
            out.path@ == self.spec_path(),
            out.writable == writable,
    {
        let target = match self {
            ControlFile::Export => GPIOSelector::open("export"),
            ControlFile::Unexport => GPIOSelector::open("unexport"),
            ControlFile::Direction(pin) => GPIOPinSelector::open(pin, "direction"),
            ControlFile::Value(pin) => GPIOPinSelector::open(pin, "value"),
            ControlFile::EdgeMode(pin) => GPIOPinSelector::open(pin, "edge"),
        };
        FileOpen { path: target.path, writable }
    }

    /// Returns the request to write the payload into the control file.
    pub fn write(self, payload: Payload) -> (out: FileWrite)
        ensures
            out.path@ == self.spec_path(),
            out.data@ == payload.spec_bytes(),
    {
        let data = payload.bytes();
        match self {
            ControlFile::Export => GPIOSelector::write("export", data.as_slice()),
            ControlFile::Unexport => GPIOSelector::write("unexport", data.as_slice()),
            ControlFile::Direction(pin) => GPIOPinSelector::write(
                pin,
                "direction",
                data.as_slice(),
            ),
            ControlFile::Value(pin) => GPIOPinSelector::write(pin, "value", data.as_slice()),
            ControlFile::EdgeMode(pin) => GPIOPinSelector::write(pin, "edge", data.as_slice()),
        }
    }
}

/// What the poller is asked for when a line's interrupt is awaited.
pub open spec fn interrupt_interest() -> Interest {
    Interest { readable: true, edge_triggered: true, urgent: true }
}

/// The actions that export line `pin`. A stale export is taken back first,
/// without regard to whether there was one; then the line is exported.
pub open spec fn export_actions(pin: usize) -> Seq<Action> {
    seq![
        Action::Write {
            file: ControlFile::Unexport,
            payload: Payload::Line(pin),
            best_effort: true,
        },
        Action::Write { file: ControlFile::Export, payload: Payload::Line(pin), best_effort: false },
    ]
}

/// The actions that claim line `pin` as an input.
pub open spec fn input_actions(pin: usize) -> Seq<Action> {
    seq![
        Action::Write {
            file: ControlFile::Direction(pin),
            payload: Payload::In,
            best_effort: false,
        },
        Action::Open { file: ControlFile::Value(pin), writable: false },
    ]
}

/// The actions that claim line `pin` as an output.
pub open spec fn output_actions(pin: usize) -> Seq<Action> {
    seq![
        Action::Write {
            file: ControlFile::Direction(pin),
            payload: Payload::Out,
            best_effort: false,
        },
        Action::Open { file: ControlFile::Value(pin), writable: true },
    ]
}

/// The actions that make the value file of line `pin` report `edge` to the
/// poller under `token`: the edge mode is set, what is pending on the value
/// file is read away, and the descriptor is registered.
pub open spec fn trigger_actions(pin: usize, token: usize, edge: Edge) -> Seq<Action> {
    seq![
        Action::Write {
            file: ControlFile::EdgeMode(pin),
            payload: Payload::Trigger(edge),
            best_effort: false,
        },
        Action::Drain,
        Action::Register { token, interest: interrupt_interest() },
    ]
}

/// The actions that give a line up: the export is taken back if the handle
/// made it, and nothing is done otherwise.
pub open spec fn release_actions(pin: usize, exported: bool) -> Seq<Action> {
    if exported {
        seq![
            Action::Write {
                file: ControlFile::Unexport,
                payload: Payload::Line(pin),
                best_effort: true,
            },
        ]
    } else {
        Seq::<Action>::empty()
    }
}

/// The level that one byte of the value file stands for. Anything but the
/// digits one and zero, and an empty read, is not understood.
pub open spec fn value_level(bytes: Seq<u8>) -> Option<Logic> {
    if bytes.len() == 0 {
        None
    } else if bytes[0] == 0x31 {
        Some(Logic::High)
    } else if bytes[0] == 0x30 {
        Some(Logic::Low)
    } else {
        None
    }
}

/// A line of the kernel's GPIO interface, and whether this handle exported it.
#[derive(Debug)]
pub struct Pin {
    pin: usize,
    exported: bool,
}

impl Pin {
    /// The kernel's number of the line.
    pub closed spec fn line(&self) -> usize {
        self.pin
    }

    /// Whether this handle exported the line.
    pub closed spec fn is_exported(&self) -> bool {
        self.exported
    }

    /// A handle on line `pin` that has exported nothing.
    pub fn new(pin: usize) -> (out: Pin)
        ensures
            out.line() == pin,
            !out.is_exported(),
    {
        Pin { pin, exported: false }
    }

    /// Returns the kernel's number of the line.
    pub fn pin(&self) -> (out: usize)
        ensures
            out == self.line(),
    {
        self.pin
    }

    /// Tells whether this handle exported the line.
    pub fn exported(&self) -> (out: bool)
        ensures
            out == self.is_exported(),
    {
        self.exported
    }

    /// Returns the actions that export the line, for a process that is
    /// privileged, and refuses for one that is not.
    pub fn export_as(&self, root: bool) -> (out: Result<Vec<Action>, Error>)
        ensures
            root ==> (out matches Ok(actions) && actions@ == export_actions(self.line())),
            !root ==> out matches Err(Error::RootRequired),
    {
        if !root {
            return Err(Error::RootRequired);
        }
        let mut actions: Vec<Action> = Vec::new();
        actions.push(
            Action::Write {
                file: ControlFile::Unexport,
                payload: Payload::Line(self.pin),
                best_effort: true,
            },
        );
        actions.push(
            Action::Write {
                file: ControlFile::Export,
                payload: Payload::Line(self.pin),
                best_effort: false,
            },
        );
        assert(actions@ =~= export_actions(self.pin));
        Ok(actions)
    }

    /// Returns the actions that export the line, or refuses if the process
    /// is not privileged. The handle counts as the exporter only once
    /// `complete_export` has been told that the actions succeeded.
    pub fn export(&mut self) -> (out: Result<Vec<Action>, Error>)
        ensures
            *final(self) == *old(self),
            match out {
                Ok(actions) => actions@ == export_actions(old(self).line()),
                Err(e) => e is RootRequired,
            },
    {
        let root = is_root();
        self.export_as(root)
    }

    /// Takes what the export actions came to. After a success the handle is
    /// the exporter of the line; a failure is passed on and leaves the
    /// handle as it was.
    pub fn complete_export(&mut self, outcome: Result<(), Error>) -> (out: Result<(), Error>)
        ensures
            final(self).line() == old(self).line(),
            outcome is Ok ==> out is Ok,
            outcome matches Err(e) ==> out == Err::<(), Error>(e),
            final(self).is_exported() == (outcome is Ok || old(self).is_exported()),
    {
        match outcome {
            Ok(()) => {
                self.exported = true;
                Ok(())
            },
            Err(e) => Err(e),
        }
    }

    /// Claims the line as an input, and returns the handle with the actions
    /// that configure the line.
    pub fn input(&self) -> (out: (PinInput, Vec<Action>))
        ensures
            out.0.line() == self.line(),
            out.1@ == input_actions(self.line()),
    {
        let mut actions: Vec<Action> = Vec::new();
        actions.push(
            Action::Write {
                file: ControlFile::Direction(self.pin),
                payload: Payload::In,
                best_effort: false,
            },
        );
        actions.push(Action::Open { file: ControlFile::Value(self.pin), writable: false });
        assert(actions@ =~= input_actions(self.pin));
        (PinInput { pin: self.pin }, actions)
    }

    /// Claims the line as an output, and returns the handle with the
    /// actions that configure the line.
    pub fn output(&self) -> (out: (PinOutput, Vec<Action>))
        ensures
            out.0.line() == self.line(),
            out.1@ == output_actions(self.line()),
    {
        let mut actions: Vec<Action> = Vec::new();
        actions.push(
            Action::Write {
                file: ControlFile::Direction(self.pin),
                payload: Payload::Out,
                best_effort: false,
            },
        );
        actions.push(Action::Open { file: ControlFile::Value(self.pin), writable: true });
        assert(actions@ =~= output_actions(self.pin));
        (PinOutput { pin: self.pin }, actions)
    }

    /// Gives the line up. The export is taken back only if this handle made
    /// it, and then without regard to whether that succeeds.
    pub fn release(&self) -> (out: Vec<Action>)
        ensures
            out@ == release_actions(self.line(), self.is_exported()),
    {
        let mut actions: Vec<Action> = Vec::new();
        if self.exported {
            actions.push(
                Action::Write {
                    file: ControlFile::Unexport,
                    payload: Payload::Line(self.pin),
                    best_effort: true,
                },
            );
        }
        assert(actions@ =~= release_actions(self.pin, self.exported));
        actions
    }
}

/// A line of the kernel's GPIO interface that is held as an input.
#[derive(Debug)]
pub struct PinInput {
    pin: usize,
}

impl PinInput {
    /// The kernel's number of the line.
    pub closed spec fn line(&self) -> usize {
        self.pin
    }

    /// Returns the kernel's number of the line.
    pub fn pin(&self) -> (out: usize)
        ensures
            out == self.line(),
    {
        self.pin
    }

    /// Returns the action that samples the line; what it reads is what
    /// `digital_read` takes.
    pub fn sample(&self) -> (out: Action)
        ensures
            out == Action::Sample,
    {
        Action::Sample
    }

    /// Returns the level that the sampled bytes stand for. An empty read and
    /// a byte that is no level are not understood.
    pub fn digital_read(&self, bytes: &[u8]) -> (out: Result<Logic, Error>)
        ensures
            match value_level(bytes@) {
                Some(level) => out == Ok::<Logic, Error>(level),
                None => out matches Err(Error::UnexpectedError),
            },
    {
        if bytes.len() == 0 {
            return Err(Error::UnexpectedError);
        }
        let byte = bytes[0];
        if byte == 0x31 {
            Ok(Logic::High)
        } else if byte == 0x30 {
            Ok(Logic::Low)
        } else {
            Err(Error::UnexpectedError)
        }
    }

    /// Returns the actions that make the line report `edge` to the poller
    /// under `token`.
    pub fn trigger(&self, token: usize, edge: Edge) -> (out: Vec<Action>)
        ensures
            out@ == trigger_actions(self.line(), token, edge),
    {
        let mut actions: Vec<Action> = Vec::new();
        actions.push(self.set_edge(edge));
        actions.push(Action::Drain);
        actions.push(
            Action::Register {
                token,
                interest: Interest { readable: true, edge_triggered: true, urgent: true },
            },
        );
        assert(actions@ =~= trigger_actions(self.pin, token, edge));
        actions
    }

    /// Returns the actions that stop the line from reporting to the poller.
    pub fn stop_trigger(&self) -> (out: Vec<Action>)
        ensures
            out@ == seq![Action::Deregister],
    {
        let mut actions: Vec<Action> = Vec::new();
        actions.push(Action::Deregister);
        assert(actions@ =~= seq![Action::Deregister]);
        actions
    }

    fn set_edge(&self, edge: Edge) -> (out: Action)
        ensures
            out == trigger_actions(self.line(), 0, edge)[0],
    {
        Action::Write {
            file: ControlFile::EdgeMode(self.pin),
            payload: Payload::Trigger(edge),
            best_effort: false,
        }
    }
}

/// A line of the kernel's GPIO interface that is held as an output.
#[derive(Debug)]
pub struct PinOutput {
    pin: usize,
}

impl PinOutput {
    /// The kernel's number of the line.
    pub closed spec fn line(&self) -> usize {
        self.pin
    }

    /// Returns the kernel's number of the line.
    pub fn pin(&self) -> (out: usize)
        ensures
            out == self.line(),
    {
        self.pin
    }

    /// Returns the action that drives the line to the level that `level` stands for.
    pub fn digital_write<L: DigitalLogic>(&self, level: L) -> (out: Action)
        ensures
            out == (Action::Put { level: level.level() }),
    {
        Action::Put { level: level.logic_level() }
    }
}

impl Action {
    /// Whether a failure of the action is passed over: only a best-effort
    /// write is.
    pub open spec fn forgiving(self) -> bool {
        self matches Action::Write { best_effort, .. } && best_effort
    }

    /// What the sequence that the action belongs to comes to after the
    /// action was performed with `outcome`: it goes on after a success and
    /// after a failure that is passed over, and ends with any other failure.
    pub open spec fn spec_proceed(self, outcome: Result<(), std::io::Error>) -> Result<(), Error> {
        match outcome {
            Ok(_) => Ok(()),
            Err(e) => if self.forgiving() {
                Ok(())
            } else {
                Err(Error::Io(e))
            },
        }
    }

    /// Takes the outcome of performing the action and tells whether the
    /// sequence goes on, and with what failure it ends if it does not.
    pub fn proceed(&self, outcome: Result<(), std::io::Error>) -> (out: Result<(), Error>)
        ensures
            out == self.spec_proceed(outcome),
    {
        match outcome {
            Ok(()) => Ok(()),
            Err(e) => match *self {
                Action::Write { file, payload, best_effort } => if best_effort {
                    Ok(())
                } else {
                    Err(Error::Io(e))
                },
                _ => Err(Error::Io(e)),
            },
        }
    }
}

/// How far a sequence of actions has come.
pub struct Advance {
    /// The actions, in order.
    pub actions: Seq<Action>,
    /// The index of the action that is to be performed next.
    pub position: int,
    /// Whether an action has failed, which ends the sequence.
    pub failed: bool,
}

impl Advance {
    /// Whether nothing is left to perform.
    pub open spec fn over(self) -> bool {
        self.failed || self.position >= self.actions.len()
    }

    /// The action that is to be performed next, if any is left.
    pub open spec fn pending(self) -> Option<Action> {
        if self.over() {
            None
        } else {
            Some(self.actions[self.position])
        }
    }

    /// The progress after the pending action was performed with `outcome`.
    pub open spec fn after(self, outcome: Result<(), std::io::Error>) -> Advance {
        if self.over() {
            self
        } else if self.actions[self.position].spec_proceed(outcome) is Ok {
            Advance { position: self.position + 1, ..self }
        } else {
            Advance { failed: true, ..self }
        }
    }
}

/// A sequence of actions that is carried out in order, each action after
/// the outcome of the one before it is known. The first failure that is
/// not passed over ends the sequence: no later action is performed.
pub struct Course {
    actions: Vec<Action>,
    position: usize,
    failed: bool,
}

impl View for Course {
    type V = Advance;

    closed spec fn view(&self) -> Advance {
        Advance { actions: self.actions@, position: self.position as int, failed: self.failed }
    }
}

impl Course {
    #[verifier::type_invariant]
    spec fn well_formed(&self) -> bool {
        self.position <= self.actions@.len()
    }

    /// The course of the given actions, of which none was performed yet.
    pub fn new(actions: Vec<Action>) -> (out: Course)
        ensures
            out@ == (Advance { actions: actions@, position: 0, failed: false }),
    {
        Course { actions, position: 0, failed: false }
    }

    /// Returns the action to perform next, or nothing when the course is over.
    pub fn next(&self) -> (out: Option<Action>)
        ensures
            out == self@.pending(),
            0 <= self@.position <= self@.actions.len(),
    {
        proof {
            use_type_invariant(self);
        }
        if self.failed || self.position >= self.actions.len() {
            None
        } else {
            Some(self.actions[self.position])
        }
    }

    /// Tells whether an action has failed and ended the course.
    pub fn has_failed(&self) -> (out: bool)
        ensures
            out == self@.failed,
    {
        self.failed
    }

    /// Returns the number of actions that were performed and did not end
    /// the course.
    pub fn completed(&self) -> (out: usize)
        ensures
            out == self@.position,
    {
        self.position
    }

    /// Takes the outcome of performing the pending action. After a success,
    /// and after a failure that is passed over, the course goes on with the
    /// next action. Any other failure ends the course and is passed on. A
    /// course that is over stays as it is.
    pub fn done(&mut self, outcome: Result<(), std::io::Error>) -> (out: Result<(), Error>)
        ensures
            final(self)@ == old(self)@.after(outcome),
            match old(self)@.pending() {
                Some(action) => out == action.spec_proceed(outcome),
                None => out is Ok,
            },
            out is Err ==> final(self)@.pending() is None,
    {
        proof {
            use_type_invariant(&*self);
        }
        if self.failed || self.position >= self.actions.len() {
            return Ok(());
        }
        let action = self.actions[self.position];
        match action.proceed(outcome) {
            Ok(()) => {
                self.position = self.position + 1;
                Ok(())
            },
            Err(e) => {
                self.failed = true;
                Err(e)
            },
        }
    }
}

} // verus!
