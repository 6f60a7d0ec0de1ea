use vstd::prelude::*;
use super::{Frame, MCP23X17Register, MAX_ADDRESS};
use crate::result::Error;

verus! {

/// One access to a register of the chip.
#[derive(Debug, Copy, Clone, PartialEq, Eq, Structural)]
pub enum Access {
    /// Write `value` into the register: one exchange.
    Write { register: MCP23X17Register, value: u8 },
    /// Read the register, set the bits of `set`, clear the bits of `clear`,
    /// and write the result back: two exchanges. The read comes first
    /// because the register holds the bits of all eight lines.
    Update { register: MCP23X17Register, set: u8, clear: u8 },
    /// Read the register: one exchange, whose answer is the transaction's result.
    Read { register: MCP23X17Register },
}

impl Access {
    /// The register that the access is made to.
    pub open spec fn register(self) -> MCP23X17Register {
        match self {
            Access::Write { register, value } => register,
            Access::Update { register, set, clear } => register,
            Access::Read { register } => register,
        }
    }
}

/// The content that an update writes back for the content `word` that it read.
pub open spec fn merged(word: u8, set: u8, clear: u8) -> u8 {
    (word | set) & !clear
}

/// Whether the chip has the register of every access.
pub open spec fn all_on_chip(accesses: Seq<Access>) -> bool {
    forall|i: int| 0 <= i < accesses.len() ==> (#[trigger] accesses[i]).register().on_chip()
}

/// How far a transaction has come.
pub struct Progress {
    /// The hardware address of the chip.
    pub address: usize,
    /// The accesses that make up the transaction, in order.
    pub accesses: Seq<Access>,
    /// The index of the access that is in progress.
    pub position: int,
    /// The content that the update in progress has read, once it has arrived.
    pub fetched: Option<u8>,
    /// The answer to the last read that was completed.
    pub result: Option<u8>,
    /// Whether a failed exchange ends the transaction quietly.
    pub best_effort: bool,
    /// Whether an exchange has failed, which ends the transaction.
    pub failed: bool,
}

impl Progress {
    /// A transaction of which nothing has been exchanged yet.
    pub open spec fn fresh(address: usize, accesses: Seq<Access>, best_effort: bool) -> Progress {
        Progress {
            address,
            accesses,
            position: 0,
            fetched: None,
            result: None,
            best_effort,
            failed: false,
        }
    }

    /// Whether the progress is one that a transaction can be in.
    pub open spec fn wf(self) -> bool {
        &&& self.address <= MAX_ADDRESS
        &&& all_on_chip(self.accesses)
        &&& 0 <= self.position <= self.accesses.len()
        &&& self.fetched is Some ==> !self.failed && self.position < self.accesses.len()
            && self.accesses[self.position] is Update
    }

    /// Whether nothing is left to exchange: every access has been
    /// completed, or an exchange has failed.
    pub open spec fn finished(self) -> bool {
        self.failed || self.position >= self.accesses.len()
    }

    /// The progress after the exchange of the pending frame has failed: the
    /// transaction is over, with the accesses before `position` completed
    /// and no other.
    pub open spec fn stopped(self) -> Progress {
        Progress { failed: true, fetched: None, ..self }
    }

    /// What a transaction comes to when an exchange fails with `error`: a
    /// best-effort transaction ends quietly and without a result, any other
    /// passes the failure on.
    pub open spec fn failure(self, error: std::io::Error) -> Result<Option<u8>, Error> {
        if self.best_effort {
            Ok(None)
        } else {
            Err(Error::Io(error))
        }
    }

    /// The frame to exchange next, if any is left.
    pub open spec fn pending(self) -> Option<Frame> {
        if self.finished() {
            None
        } else {
            match self.accesses[self.position] {
                Access::Write { register, value } => Some(
                    register.write_frame(self.address, value),
                ),
                Access::Read { register } => Some(register.read_frame(self.address)),
                Access::Update { register, set, clear } => match self.fetched {
                    None => Some(register.read_frame(self.address)),
                    Some(word) => Some(
                        register.write_frame(self.address, merged(word, set, clear)),
                    ),
                },
            }
        }
    }

    /// The progress after the pending frame was exchanged and the chip
    /// answered with `data` as its third byte.
    pub open spec fn advanced(self, data: u8) -> Progress {
        if self.finished() {
            self
        } else {
            match self.accesses[self.position] {
                Access::Write { register, value } => Progress {
                    position: self.position + 1,
                    ..self
                },
                Access::Read { register } => Progress {
                    position: self.position + 1,
                    result: Some(data),
                    ..self
                },
                Access::Update { register, set, clear } => match self.fetched {
                    None => Progress { fetched: Some(data), ..self },
                    Some(word) => Progress { position: self.position + 1, fetched: None, ..self },
                },
            }
        }
    }

    /// The number of exchanges that are left.
    pub open spec fn remaining(self) -> int {
        if self.failed {
            0
        } else {
            exchanges_from(self.accesses, self.position) - if self.fetched is Some {
                1int
            } else {
                0int
            }
        }
    }
}

/// The number of exchanges that the accesses from `position` on take.
pub open spec fn exchanges_from(accesses: Seq<Access>, position: int) -> int
    decreases accesses.len() - position,
{
    if position < 0 || position >= accesses.len() {
        0
    } else if accesses[position] is Update {
        2 + exchanges_from(accesses, position + 1)
    } else {
        1 + exchanges_from(accesses, position + 1)
    }
}

/// No position has a negative number of exchanges ahead of it.
pub proof fn lemma_exchanges_from(accesses: Seq<Access>, position: int)
    ensures
        exchanges_from(accesses, position) >= 0,
    decreases accesses.len() - position,
{
    if 0 <= position < accesses.len() {
        lemma_exchanges_from(accesses, position + 1);
    }
}

/// A sequence of register accesses that is carried out as one: whoever
/// drives it takes the chip's lock once, exchanges each pending frame in
/// turn, waits for each answer before the next frame goes out, and lets go
/// of the lock when nothing is pending.
pub struct Transaction {
    address: usize,
    accesses: Vec<Access>,
    position: usize,
    fetched: Option<u8>,
    result: Option<u8>,
    best_effort: bool,
    failed: bool,
}

impl View for Transaction {
    type V = Progress;

    closed spec fn view(&self) -> Progress {
        Progress {
            address: self.address,
            accesses: self.accesses@,
            position: self.position as int,
            fetched: self.fetched,
            result: self.result,
            best_effort: self.best_effort,
            failed: self.failed,
        }
    }
}

impl Transaction {
    #[verifier::type_invariant]
    spec fn well_formed(&self) -> bool {
        self@.wf()
    }

    /// A transaction of the given accesses on the chip at `address`, of
    /// which nothing has been exchanged yet.
    pub(crate) fn make(address: usize, accesses: Vec<Access>, best_effort: bool) -> (out:
        Transaction)
        requires
            address <= MAX_ADDRESS,
            all_on_chip(accesses@),
        ensures
            out@ == Progress::fresh(address, accesses@, best_effort),
            out@.wf(),
    {
        Transaction {
            address,
            accesses,
            position: 0,
            fetched: None,
            result: None,
            best_effort,
            failed: false,
        }
    }

    /// A transaction of the given accesses on the chip at `address`, of
    /// which nothing has been exchanged yet. There is none for an address
    /// that no chip is opened with, nor for a register that the chip does
    /// not have.
    pub fn new(address: usize, accesses: Vec<Access>, best_effort: bool) -> (out: Option<
        Transaction,
    >)
        ensures
            match out {
                Some(transaction) => address <= MAX_ADDRESS && all_on_chip(accesses@)
                    && transaction@ == Progress::fresh(address, accesses@, best_effort),
                None => !(address <= MAX_ADDRESS && all_on_chip(accesses@)),
            },
    {
        if address > MAX_ADDRESS {
            return None;
        }
        let mut i: usize = 0;
        while i < accesses.len()
            invariant
                i <= accesses.len(),
                forall|k: int| 0 <= k < i ==> (#[trigger] accesses@[k]).register().on_chip(),
            decreases accesses.len() - i,
        {
            let register = match accesses[i] {
                Access::Write { register, value } => register,
                Access::Update { register, set, clear } => register,
                Access::Read { register } => register,
            };
            if !register.is_on_chip() {
                return None;
            }
            i = i + 1;
        }
        Some(Self::make(address, accesses, best_effort))
    }

    /// Returns the hardware address of the chip.
    pub fn address(&self) -> (out: usize)
        ensures
            out == self@.address,
            self@.wf(),
    {
        proof {
            use_type_invariant(self);
        }
        self.address
    }

    /// Tells whether a failed exchange ends the transaction quietly, as it
    /// does when a handle is released.
    pub fn is_best_effort(&self) -> (out: bool)
        ensures
            out == self@.best_effort,
    {
        self.best_effort
    }

    /// Tells whether every access has been completed.
    pub fn is_finished(&self) -> (out: bool)
        ensures
            out == self@.finished(),
            self@.wf(),
    {
        proof {
            use_type_invariant(self);
        }
        self.failed || self.position >= self.accesses.len()
    }

    /// Tells whether an exchange has failed.
    pub fn has_failed(&self) -> (out: bool)
        ensures
            out == self@.failed,
    {
        self.failed
    }

    /// Returns the number of accesses that were completed.
    pub fn completed(&self) -> (out: usize)
        ensures
            out == self@.position,
    {
        self.position
    }

    /// Returns the answer to the last read that was completed.
    pub fn result(&self) -> (out: Option<u8>)
        ensures
            out == self@.result,
    {
        self.result
    }

    /// Returns the frame to exchange next, or nothing when the transaction is finished.
    pub fn request(&self) -> (out: Option<Frame>)
        ensures
            out == self@.pending(),
            out is None <==> self@.finished(),
            self@.wf(),
    {
        proof {
            use_type_invariant(self);
        }
        if self.failed || self.position >= self.accesses.len() {
            return None;
        }
        let access = self.accesses[self.position];
        assert(access.register().on_chip());
        match access {
            Access::Write { register, value } => Some(register.write(self.address, value)),
            Access::Read { register } => Some(register.read(self.address)),
            Access::Update { register, set, clear } => match self.fetched {
                None => Some(register.read(self.address)),
                Some(word) => Some(register.write(self.address, (word | set) & !clear)),
            },
        }
    }

    /// Takes the third byte of the chip's answer to the frame that was
    /// pending, and moves on. A finished transaction stays as it is.
    pub fn reply(&mut self, data: u8)
        ensures
            final(self)@ == old(self)@.advanced(data),
            final(self)@.wf(),
            !old(self)@.finished() ==> 0 <= final(self)@.remaining() == old(self)@.remaining() - 1,
    {
        proof {
            use_type_invariant(&*self);
            lemma_exchanges_from(self@.accesses, self@.position + 1);
        }
        if self.failed || self.position >= self.accesses.len() {
            return ;
        }
        let access = self.accesses[self.position];
        match access {
            Access::Write { register, value } => {
                self.position = self.position + 1;
            },
            Access::Read { register } => {
                self.result = Some(data);
                self.position = self.position + 1;
            },
            Access::Update { register, set, clear } => match self.fetched {
                None => {
                    self.fetched = Some(data);
                },
                Some(word) => {
                    self.fetched = None;
                    self.position = self.position + 1;
                },
            },
        }
    }

    /// Takes the failure of the exchange of the frame that was pending.
    ///
    /// The transaction is over: nothing is pending afterwards, so that no
    /// frame goes out after the one that failed. A best-effort transaction
    /// ends quietly and without a result; any other passes the failure on.
    pub fn fail(&mut self, error: std::io::Error) -> (out: Result<Option<u8>, Error>)
        ensures
            final(self)@ == old(self)@.stopped(),
            final(self)@.wf(),
            final(self)@.finished(),
            final(self)@.pending() is None,
            out == old(self)@.failure(error),
    {
        proof {
            use_type_invariant(&*self);
        }
        self.fetched = None;
        self.failed = true;
        if self.best_effort {
            Ok(None)
        } else {
            Err(Error::Io(error))
        }
    }

    /// Returns what a transaction that was driven to its end without a
    /// failure comes to: the answer to its last read, if it made one.
    pub fn finish(&self) -> (out: Result<Option<u8>, Error>)
        ensures
            out == Ok::<Option<u8>, Error>(self@.result),
    {
        Ok(self.result)
    }
}

} // verus!
