//! The debug-transport facade, modelled as a recording probe.
//!
//! Every operation the flasher issues (memory block writes, core-register
//! writes, reset, run, wait-for-halt) is recorded in order.  Wait-for-halt answers
//! come from a pre-loaded script of R0 status words; an exhausted script
//! reports success (status 0).

use vstd::prelude::*;

verus! {

/// Names of the CPU registers that the flash-algorithm call protocol touches.
#[derive(Clone, Copy, PartialEq, Eq, Structural, Debug)]
pub enum CoreRegisterId {
    PC,
    R0,
    R1,
    R2,
    R3,
    R9,
    SP,
    LR,
}

/// One operation issued to the debug transport, in issue order.
#[derive(PartialEq, Eq, Debug)]
pub enum TransportOp {
    /// A block of 32-bit words written to target memory.
    WriteBlock32 { address: u32, words: Vec<u32> },
    /// A block of bytes written to target memory.
    WriteBlock8 { address: u32, bytes: Vec<u8> },
    /// A core register write.
    WriteCoreReg { reg: CoreRegisterId, value: u32 },
    /// The core was resumed.
    Run,
    /// The core was reset and left halted.
    ResetAndHalt,
    /// The transport waited until the core halted, then read R0.
    WaitForHalt,
}

/// Mathematical image of one transport operation.
#[verifier::ext_equal]
pub enum OpView {
    WriteBlock32 { address: u32, words: Seq<u32> },
    WriteBlock8 { address: u32, bytes: Seq<u8> },
    WriteCoreReg { reg: CoreRegisterId, value: u32 },
    Run,
    ResetAndHalt,
    WaitForHalt,
}

impl View for TransportOp {
    type V = OpView;

    open spec fn view(&self) -> OpView {
        match self {
            TransportOp::WriteBlock32 { address, words } => OpView::WriteBlock32 {
                address: *address,
                words: words@,
            },
            TransportOp::WriteBlock8 { address, bytes } => OpView::WriteBlock8 {
                address: *address,
                bytes: bytes@,
            },
            TransportOp::WriteCoreReg { reg, value } => OpView::WriteCoreReg {
                reg: *reg,
                value: *value,
            },
            TransportOp::Run => OpView::Run,
            TransportOp::ResetAndHalt => OpView::ResetAndHalt,
            TransportOp::WaitForHalt => OpView::WaitForHalt,
        }
    }
}

/// The debug transport: records every issued operation and answers each
/// wait-for-halt from a script of R0 status words.
pub struct Probe {
    /// Operations issued so far, oldest first.
    pub ops: Vec<TransportOp>,
    /// R0 status words handed out by successive waits.
    pub wait_statuses: Vec<u32>,
    /// How many script entries have been consumed.
    pub waits_done: usize,
}

impl Probe {
    /// The recorded operations, as their mathematical images.
    pub open spec fn trace(self) -> Seq<OpView> {
        self.ops@.map_values(|op: TransportOp| op@)
    }

    /// The status script.
    pub open spec fn script(self) -> Seq<u32> {
        self.wait_statuses@
    }

    /// Number of script entries consumed so far.
    pub open spec fn polled(self) -> int {
        self.waits_done as int
    }

    /// The status word the `k`-th wait reports: the script entry if one is
    /// left, success (0) otherwise.
    pub open spec fn status_at(self, k: int) -> u32 {
        if 0 <= k < self.script().len() {
            self.script()[k]
        } else {
            0
        }
    }

    /// The status word the next wait will report.
    pub open spec fn next_status(self) -> u32 {
        self.status_at(self.polled())
    }

    /// Script position after one more wait.
    pub open spec fn polled_after_wait(self) -> int {
        if self.polled() < self.script().len() {
            self.polled() + 1
        } else {
            self.polled()
        }
    }

    /// A fresh probe with an empty trace and the given status script.
    pub fn new(wait_statuses: Vec<u32>) -> (p: Probe)
        ensures
            p.trace() == Seq::<OpView>::empty(),
            p.script() == wait_statuses@,
            p.polled() == 0,
    {
        let p = Probe { ops: Vec::new(), wait_statuses, waits_done: 0 };
        proof {
            assert(p.trace() =~= Seq::<OpView>::empty());
        }
        p
    }

    /// Write a block of 32-bit words to target memory.
    pub fn write_block32(&mut self, address: u32, words: &Vec<u32>)
        ensures
            final(self).trace() == old(self).trace().push(
                OpView::WriteBlock32 { address, words: words@ },
            ),
            final(self).script() == old(self).script(),
            final(self).polled() == old(self).polled(),
    {
        let copy = copy_word_vec(words);
        self.ops.push(TransportOp::WriteBlock32 { address, words: copy });
        proof {
            assert(self.trace() =~= old(self).trace().push(
                OpView::WriteBlock32 { address, words: words@ },
            ));
        }
    }

    /// Write a block of bytes to target memory.
    pub fn write_block8(&mut self, address: u32, bytes: &Vec<u8>)
        ensures
            final(self).trace() == old(self).trace().push(
                OpView::WriteBlock8 { address, bytes: bytes@ },
            ),
            final(self).script() == old(self).script(),
            final(self).polled() == old(self).polled(),
    {
        let copy = copy_byte_vec(bytes);
        self.ops.push(TransportOp::WriteBlock8 { address, bytes: copy });
        proof {
            assert(self.trace() =~= old(self).trace().push(
                OpView::WriteBlock8 { address, bytes: bytes@ },
            ));
        }
    }

    /// Write one core register.
    pub fn write_core_reg(&mut self, reg: CoreRegisterId, value: u32)
        ensures
            final(self).trace() == old(self).trace().push(OpView::WriteCoreReg { reg, value }),
            final(self).script() == old(self).script(),
            final(self).polled() == old(self).polled(),
    {
        self.ops.push(TransportOp::WriteCoreReg { reg, value });
        proof {
            assert(self.trace() =~= old(self).trace().push(OpView::WriteCoreReg { reg, value }));
        }
    }

    /// Resume the core.
    pub fn run(&mut self)
        ensures
            final(self).trace() == old(self).trace().push(OpView::Run),
            final(self).script() == old(self).script(),
            final(self).polled() == old(self).polled(),
    {
        self.ops.push(TransportOp::Run);
        proof {
            assert(self.trace() =~= old(self).trace().push(OpView::Run));
        }
    }

    /// Reset the core and leave it halted at the reset vector.
    pub fn reset_and_halt(&mut self)
        ensures
            final(self).trace() == old(self).trace().push(OpView::ResetAndHalt),
            final(self).script() == old(self).script(),
            final(self).polled() == old(self).polled(),
    {
        self.ops.push(TransportOp::ResetAndHalt);
        proof {
            assert(self.trace() =~= old(self).trace().push(OpView::ResetAndHalt));
        }
    }

    /// Wait until the core halts, then read and return R0.  Intermediate
    /// transport errors are retried until the core is halted, so the call
    /// always yields a status word: the next scripted one, or success once
    /// the script is exhausted.
    pub fn wait_for_halt_and_read_r0(&mut self) -> (status: u32)
        ensures
            final(self).trace() == old(self).trace().push(OpView::WaitForHalt),
            final(self).script() == old(self).script(),
            final(self).polled() == old(self).polled_after_wait(),
            status == old(self).next_status(),
    {
        self.ops.push(TransportOp::WaitForHalt);
        proof {
            assert(self.trace() =~= old(self).trace().push(OpView::WaitForHalt));
        }
        if self.waits_done < self.wait_statuses.len() {
            let status = self.wait_statuses[self.waits_done];
            self.waits_done = self.waits_done + 1;
            status
        } else {
            0
        }
    }
}

/// Element-for-element copy of a word vector.
fn copy_word_vec(words: &Vec<u32>) -> (r: Vec<u32>)
    ensures
        r@ == words@,
{
    let mut r: Vec<u32> = Vec::new();
    let mut i: usize = 0;
    while i < words.len()
        invariant
            i <= words@.len(),
            r@ == words@.take(i as int),
        decreases words@.len() - i,
    {
        r.push(words[i]);
        i = i + 1;
        proof {
            assert(r@ =~= words@.take(i as int));
        }
    }
    proof {
        assert(r@ =~= words@);
    }
    r
}

/// Element-for-element copy of a byte vector.
fn copy_byte_vec(bytes: &Vec<u8>) -> (r: Vec<u8>)
    ensures
        r@ == bytes@,
{
    let mut r: Vec<u8> = Vec::new();
    let mut i: usize = 0;
    while i < bytes.len()
        invariant
            i <= bytes@.len(),
            r@ == bytes@.take(i as int),
        decreases bytes@.len() - i,
    {
        r.push(bytes[i]);
        i = i + 1;
        proof {
            assert(r@ =~= bytes@.take(i as int));
        }
    }
    proof {
        assert(r@ =~= bytes@);
    }
    r
}

} // verus!
