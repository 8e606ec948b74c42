//! The flasher state machine and the flash-algorithm invoker.
//!
//! A flasher is either inactive or active for exactly one operation type.
//! While active it owns the probe and drives the flash algorithm by
//! installing a register frame, resuming the core, and waiting for the
//! breakpoint return.  Every contract pins the exact sequence of transport
//! operations the call issues and ties the returned error to the status
//! word the algorithm left in R0.

use vstd::prelude::*;

use core::marker::PhantomData;

use crate::algorithm::{
    Erase, FlashAlgorithm, FlashInfo, FlashRegion, Operation, PageInfo, Program, SectorInfo,
};
use crate::transport::{CoreRegisterId, OpView, Probe};

verus! {

/// Failure of a flash operation, carrying the algorithm's R0 status word
/// and, where relevant, the offending address or buffer index.
#[derive(Clone, Copy, PartialEq, Eq, Structural, Debug)]
pub enum FlasherError {
    Init(u32),
    Uninit(u32),
    EraseAll(u32),
    EraseAllNotSupported,
    EraseSector(u32, u32),
    ProgramPage(u32, u32),
    InvalidBufferNumber(u32, u32),
    UnalignedFlashWriteAddress,
    UnalignedPhraseLength,
    ProgramPhrase(u32, u32),
}

/// A core-register write, as it appears in the transport trace.
pub open spec fn reg_write(reg: CoreRegisterId, value: u32) -> OpView {
    OpView::WriteCoreReg { reg, value }
}

/// The register write an optional operand produces: one write when the
/// operand is given, none when it is omitted.
pub open spec fn optional_reg_write(reg: CoreRegisterId, value: Option<u32>) -> Seq<OpView> {
    match value {
        Some(v) => seq![reg_write(reg, v)],
        None => Seq::<OpView>::empty(),
    }
}

/// The transport operations of one register-frame installation followed by
/// a resume: PC first, then the provided operands, then (only for an init
/// frame) R9 and SP, then LR forced to the Thumb return address, then run.
pub open spec fn frame_ops(
    algo: FlashAlgorithm,
    pc: u32,
    r0: Option<u32>,
    r1: Option<u32>,
    r2: Option<u32>,
    r3: Option<u32>,
    init: bool,
) -> Seq<OpView> {
    seq![reg_write(CoreRegisterId::PC, pc)] + optional_reg_write(CoreRegisterId::R0, r0)
        + optional_reg_write(CoreRegisterId::R1, r1) + optional_reg_write(CoreRegisterId::R2, r2)
        + optional_reg_write(CoreRegisterId::R3, r3) + (if init {
        seq![
            reg_write(CoreRegisterId::R9, algo.static_base),
            reg_write(CoreRegisterId::SP, algo.begin_stack),
        ]
    } else {
        Seq::<OpView>::empty()
    }) + seq![reg_write(CoreRegisterId::LR, algo.load_address | 1), OpView::Run]
}

/// The value of an optional operand, defaulting to zero.
pub open spec fn or_zero(value: Option<u32>) -> u32 {
    match value {
        Some(v) => v,
        None => 0,
    }
}

/// The transport operations of `init`: reset the target into a halted
/// state, stage the instruction words, then, if the blob has an `Init`
/// entry point, call it with R0 = address, R1 = clock (each defaulting to
/// zero) and R2 = the operation code.
pub open spec fn init_ops(
    algo: FlashAlgorithm,
    address: Option<u32>,
    clock: Option<u32>,
    code: u32,
) -> Seq<OpView> {
    seq![
        OpView::ResetAndHalt,
        (OpView::WriteBlock32 { address: algo.load_address, words: algo.instructions@ }),
    ] + match algo.pc_init {
        Some(pc) => frame_ops(
            algo,
            pc,
            Some(or_zero(address)),
            Some(or_zero(clock)),
            Some(code),
            None,
            true,
        ) + seq![OpView::WaitForHalt],
        None => Seq::<OpView>::empty(),
    }
}

/// The transport operations of `uninit`: nothing without an `UnInit` entry
/// point, else one non-init frame with R0 = the operation code.
pub open spec fn uninit_ops(algo: FlashAlgorithm, code: u32) -> Seq<OpView> {
    match algo.pc_uninit {
        Some(pc) => frame_ops(algo, pc, Some(code), None, None, None, false)
            + seq![OpView::WaitForHalt],
        None => Seq::<OpView>::empty(),
    }
}

/// The transport operations of programming one page or phrase: the data
/// bytes land at `begin_data` first, then `ProgramPage` is called with
/// R0 = address, R1 = byte count, R2 = `begin_data`.
pub open spec fn program_page_ops(algo: FlashAlgorithm, address: u32, bytes: Seq<u8>) -> Seq<
    OpView,
> {
    seq![(OpView::WriteBlock8 { address: algo.begin_data, bytes })] + frame_ops(
        algo,
        algo.pc_program_page,
        Some(address),
        Some(bytes.len() as u32),
        Some(algo.begin_data),
        None,
        false,
    ) + seq![OpView::WaitForHalt]
}

/// Whether the operation sequence writes the given core register at all.
pub open spec fn writes_register(ops: Seq<OpView>, reg: CoreRegisterId) -> bool {
    exists|i: int|
        0 <= i < ops.len() && (#[trigger] ops[i] matches OpView::WriteCoreReg { reg: r, value: _ }
            && r == reg)
}

/// A flasher not initialised for any operation; it owns the probe and the
/// algorithm between flash commands.
pub struct InactiveFlasher {
    /// The debug transport.
    pub probe: Probe,
    /// The flash algorithm this target uses.
    pub algo: FlashAlgorithm,
}

/// A flasher initialised for one operation type `O`; only the primitives of
/// that operation are callable.
#[verifier::reject_recursive_types(O)]
pub struct ActiveFlasher<O: Operation> {
    /// The debug transport.
    pub probe: Probe,
    /// The flash algorithm this target uses.
    pub algo: FlashAlgorithm,
    /// The flash region the operation works on.
    pub region: FlashRegion,
    /// Compile-time tag of the one operation this flasher may perform.
    pub _operation: PhantomData<O>,
}

impl InactiveFlasher {
    /// Packs a probe and an algorithm description into an inactive flasher.
    pub fn new(probe: Probe, algo: FlashAlgorithm) -> (f: InactiveFlasher)
        ensures
            f.probe == probe,
            f.algo == algo,
    {
        InactiveFlasher { probe, algo }
    }

    /// Initialises the flasher for operation `O`: halts and resets the
    /// target, stages the instruction words and, if the blob has an `Init`
    /// entry point, runs it with
    /// R0 = `address`, R1 = `clock` (defaulting to zero) and R2 = `O`'s
    /// code.  A non-zero status fails with `Init` and discards the
    /// half-initialised session.
    pub fn init<O: Operation>(
        self,
        region: FlashRegion,
        address: Option<u32>,
        clock: Option<u32>,
    ) -> (r: Result<ActiveFlasher<O>, FlasherError>)
        ensures
            ({
                let status = self.probe.next_status();
                match r {
                    Ok(active) => {
                        &&& active.algo == self.algo
                        &&& active.region == region
                        &&& active.probe.script() == self.probe.script()
                        &&& active.probe.trace() == self.probe.trace() + init_ops(
                            self.algo,
                            address,
                            clock,
                            O::operation_code(),
                        )
                        &&& active.probe.polled() == (if self.algo.pc_init is Some {
                            self.probe.polled_after_wait()
                        } else {
                            self.probe.polled()
                        })
                        &&& (self.algo.pc_init is Some ==> status == 0)
                    },
                    Err(e) => {
                        &&& self.algo.pc_init is Some
                        &&& status != 0
                        &&& e == FlasherError::Init(status)
                    },
                }
            }),
    {
        let ghost orig = self;
        let InactiveFlasher { mut probe, algo } = self;
        // Bring the target into a known halted state, then stage the
        // position-independent code in its RAM.
        probe.reset_and_halt();
        probe.write_block32(algo.load_address, &algo.instructions);
        let mut active = ActiveFlasher::<O> { probe, algo, region, _operation: PhantomData };

        if let Some(pc_init) = active.algo.pc_init {
            let r0 = match address {
                Some(v) => v,
                None => 0,
            };
            let r1 = match clock {
                Some(v) => v,
                None => 0,
            };
            let result = active.call_function_and_wait(
                pc_init,
                Some(r0),
                Some(r1),
                Some(O::operation()),
                None,
                true,
            );
            if result != 0 {
                return Err(FlasherError::Init(result));
            }
        }
        proof {
            assert(active.probe.trace() =~= orig.probe.trace() + init_ops(
                orig.algo,
                address,
                clock,
                O::operation_code(),
            ));
        }
        Ok(active)
    }
}

impl<O: Operation> ActiveFlasher<O> {
    /// Deinitialises the flasher.  If the blob has an `UnInit` entry point
    /// it runs with R0 = `O`'s code; a non-zero status is reported as
    /// `Uninit`, but the session transitions back to inactive either way.
    pub fn uninit(self) -> (r: (InactiveFlasher, Result<(), FlasherError>))
        ensures
            ({
                let status = self.probe.next_status();
                &&& r.0.algo == self.algo
                &&& r.0.probe.script() == self.probe.script()
                &&& r.0.probe.trace() == self.probe.trace() + uninit_ops(
                    self.algo,
                    O::operation_code(),
                )
                &&& r.0.probe.polled() == (if self.algo.pc_uninit is Some {
                    self.probe.polled_after_wait()
                } else {
                    self.probe.polled()
                })
                &&& r.1 == (if self.algo.pc_uninit is Some && status != 0 {
                    Err::<(), FlasherError>(FlasherError::Uninit(status))
                } else {
                    Ok::<(), FlasherError>(())
                })
            }),
    {
        let ghost orig = self;
        let mut this = self;
        let mut diagnostic: Result<(), FlasherError> = Ok(());
        if let Some(pc_uninit) = this.algo.pc_uninit {
            let result = this.call_function_and_wait(
                pc_uninit,
                Some(O::operation()),
                None,
                None,
                None,
                false,
            );
            if result != 0 {
                diagnostic = Err(FlasherError::Uninit(result));
            }
        }
        let inactive = InactiveFlasher { probe: this.probe, algo: this.algo };
        proof {
            assert(inactive.probe.trace() =~= orig.probe.trace() + uninit_ops(
                orig.algo,
                O::operation_code(),
            ));
        }
        (inactive, diagnostic)
    }

    /// Installs a register frame and waits for the breakpoint return,
    /// yielding the algorithm's R0 status word.
    pub(crate) fn call_function_and_wait(
        &mut self,
        pc: u32,
        r0: Option<u32>,
        r1: Option<u32>,
        r2: Option<u32>,
        r3: Option<u32>,
        init: bool,
    ) -> (status: u32)
        ensures
            final(self).algo == old(self).algo,
            final(self).region == old(self).region,
            final(self).probe.script() == old(self).probe.script(),
            final(self).probe.trace() == old(self).probe.trace() + frame_ops(
                old(self).algo,
                pc,
                r0,
                r1,
                r2,
                r3,
                init,
            ) + seq![OpView::WaitForHalt],
            final(self).probe.polled() == old(self).probe.polled_after_wait(),
            status == old(self).probe.next_status(),
    {
        self.call_function(pc, r0, r1, r2, r3, init);
        let status = self.wait_for_completion();
        proof {
            assert(self.probe.trace() =~= old(self).probe.trace() + frame_ops(
                old(self).algo,
                pc,
                r0,
                r1,
                r2,
                r3,
                init,
            ) + seq![OpView::WaitForHalt]);
        }
        status
    }

    /// Installs the register frame for one call into the blob and resumes
    /// the core.  Omitted operands leave their registers untouched; an init
    /// frame additionally sets up R9 and SP; LR always becomes the blob's
    /// load address with the Thumb bit set, so the returning algorithm hits
    /// the breakpoint at the blob's entry.
    pub(crate) fn call_function(
        &mut self,
        pc: u32,
        r0: Option<u32>,
        r1: Option<u32>,
        r2: Option<u32>,
        r3: Option<u32>,
        init: bool,
    )
        ensures
            final(self).algo == old(self).algo,
            final(self).region == old(self).region,
            final(self).probe.script() == old(self).probe.script(),
            final(self).probe.polled() == old(self).probe.polled(),
            final(self).probe.trace() == old(self).probe.trace() + frame_ops(
                old(self).algo,
                pc,
                r0,
                r1,
                r2,
                r3,
                init,
            ),
    {
        self.probe.write_core_reg(CoreRegisterId::PC, pc);
        if let Some(v) = r0 {
            self.probe.write_core_reg(CoreRegisterId::R0, v);
        }
        if let Some(v) = r1 {
            self.probe.write_core_reg(CoreRegisterId::R1, v);
        }
        if let Some(v) = r2 {
            self.probe.write_core_reg(CoreRegisterId::R2, v);
        }
        if let Some(v) = r3 {
            self.probe.write_core_reg(CoreRegisterId::R3, v);
        }
        if init {
            let static_base = self.algo.static_base;
            let begin_stack = self.algo.begin_stack;
            self.probe.write_core_reg(CoreRegisterId::R9, static_base);
            self.probe.write_core_reg(CoreRegisterId::SP, begin_stack);
        }
        let lr = self.algo.load_address | 1;
        self.probe.write_core_reg(CoreRegisterId::LR, lr);
        self.probe.run();
        proof {
            assert(self.probe.trace() =~= old(self).probe.trace() + frame_ops(
                old(self).algo,
                pc,
                r0,
                r1,
                r2,
                r3,
                init,
            ));
        }
    }

    /// Waits until the core halts (retrying through transient transport
    /// trouble) and reads the status the algorithm left in R0.
    pub(crate) fn wait_for_completion(&mut self) -> (status: u32)
        ensures
            final(self).algo == old(self).algo,
            final(self).region == old(self).region,
            final(self).probe.script() == old(self).probe.script(),
            final(self).probe.trace() == old(self).probe.trace().push(OpView::WaitForHalt),
            final(self).probe.polled() == old(self).probe.polled_after_wait(),
            status == old(self).probe.next_status(),
    {
        self.probe.wait_for_halt_and_read_r0()
    }
}

impl ActiveFlasher<Erase> {
    /// Erases the whole flash bank.  Without an `EraseAll` entry point the
    /// call fails as unsupported and issues no transport operation; else a
    /// non-zero status fails with `EraseAll`.
    pub fn erase_all(&mut self) -> (r: Result<(), FlasherError>)
        ensures
            final(self).algo == old(self).algo,
            final(self).region == old(self).region,
            final(self).probe.script() == old(self).probe.script(),
            match old(self).algo.pc_erase_all {
                Some(pc) => ({
                    let status = old(self).probe.next_status();
                    &&& final(self).probe.trace() == old(self).probe.trace() + frame_ops(
                        old(self).algo,
                        pc,
                        None,
                        None,
                        None,
                        None,
                        false,
                    ) + seq![OpView::WaitForHalt]
                    &&& final(self).probe.polled() == old(self).probe.polled_after_wait()
                    &&& r == (if status != 0 {
                        Err::<(), FlasherError>(FlasherError::EraseAll(status))
                    } else {
                        Ok::<(), FlasherError>(())
                    })
                }),
                None => {
                    &&& r == Err::<(), FlasherError>(FlasherError::EraseAllNotSupported)
                    &&& *final(self) == *old(self)
                },
            },
    {
        if let Some(pc_erase_all) = self.algo.pc_erase_all {
            let result = self.call_function_and_wait(pc_erase_all, None, None, None, None, false);
            if result != 0 {
                Err(FlasherError::EraseAll(result))
            } else {
                Ok(())
            }
        } else {
            Err(FlasherError::EraseAllNotSupported)
        }
    }

    /// Erases the sector at `address`: one non-init frame with
    /// R0 = `address`.  A non-zero status fails with `EraseSector`.
    pub fn erase_sector(&mut self, address: u32) -> (r: Result<(), FlasherError>)
        ensures
            final(self).algo == old(self).algo,
            final(self).region == old(self).region,
            final(self).probe.script() == old(self).probe.script(),
            final(self).probe.trace() == old(self).probe.trace() + frame_ops(
                old(self).algo,
                old(self).algo.pc_erase_sector,
                Some(address),
                None,
                None,
                None,
                false,
            ) + seq![OpView::WaitForHalt],
            final(self).probe.polled() == old(self).probe.polled_after_wait(),
            ({
                let status = old(self).probe.next_status();
                r == (if status != 0 {
                    Err::<(), FlasherError>(FlasherError::EraseSector(status, address))
                } else {
                    Ok::<(), FlasherError>(())
                })
            }),
    {
        let pc = self.algo.pc_erase_sector;
        let result = self.call_function_and_wait(pc, Some(address), None, None, None, false);
        if result != 0 {
            Err(FlasherError::EraseSector(result, address))
        } else {
            Ok(())
        }
    }
}

impl ActiveFlasher<Program> {
    /// The minimum programmable unit: the algorithm's declared minimum, or
    /// the region's page size when none is declared.
    pub open spec fn phrase_alignment(self) -> u32 {
        match self.algo.min_program_length {
            Some(m) => m,
            None => self.region.page_size,
        }
    }

    /// Programs one page: the bytes land at `begin_data` first, then
    /// `ProgramPage` runs with R0 = `address`, R1 = byte count,
    /// R2 = `begin_data`.  A non-zero status fails with `ProgramPage`.
    pub fn program_page(&mut self, address: u32, bytes: &Vec<u8>) -> (r: Result<
        (),
        FlasherError,
    >)
        requires
            bytes@.len() <= u32::MAX,
        ensures
            final(self).algo == old(self).algo,
            final(self).region == old(self).region,
            final(self).probe.script() == old(self).probe.script(),
            final(self).probe.trace() == old(self).probe.trace() + program_page_ops(
                old(self).algo,
                address,
                bytes@,
            ),
            final(self).probe.polled() == old(self).probe.polled_after_wait(),
            ({
                let status = old(self).probe.next_status();
                r == (if status != 0 {
                    Err::<(), FlasherError>(FlasherError::ProgramPage(status, address))
                } else {
                    Ok::<(), FlasherError>(())
                })
            }),
    {
        let data_address = self.algo.begin_data;
        let pc = self.algo.pc_program_page;
        // Transfer the page bytes to the target's RAM buffer first.
        self.probe.write_block8(data_address, bytes);
        let result = self.call_function_and_wait(
            pc,
            Some(address),
            Some(bytes.len() as u32),
            Some(data_address),
            None,
            false,
        );
        proof {
            assert(self.probe.trace() =~= old(self).probe.trace() + program_page_ops(
                old(self).algo,
                address,
                bytes@,
            ));
        }
        if result != 0 {
            Err(FlasherError::ProgramPage(result, address))
        } else {
            Ok(())
        }
    }

    /// Starts programming a page from a numbered page buffer without
    /// waiting for completion; the caller pairs it with
    /// `wait_for_completion` before reading the status.  An out-of-range
    /// buffer index fails with `InvalidBufferNumber` and issues nothing.
    pub fn start_program_page_with_buffer(&mut self, address: u32, buffer_number: u32) -> (r:
        Result<(), FlasherError>)
        requires
            old(self).algo.page_buffers@.len() <= u32::MAX,
        ensures
            final(self).algo == old(self).algo,
            final(self).region == old(self).region,
            final(self).probe.script() == old(self).probe.script(),
            final(self).probe.polled() == old(self).probe.polled(),
            if buffer_number as int >= old(self).algo.page_buffers@.len() {
                &&& r == Err::<(), FlasherError>(
                    FlasherError::InvalidBufferNumber(
                        buffer_number,
                        old(self).algo.page_buffers@.len() as u32,
                    ),
                )
                &&& *final(self) == *old(self)
            } else {
                &&& r == Ok::<(), FlasherError>(())
                &&& final(self).probe.trace() == old(self).probe.trace() + frame_ops(
                    old(self).algo,
                    old(self).algo.pc_program_page,
                    Some(address),
                    Some(old(self).region.page_size),
                    Some(old(self).algo.page_buffers@[buffer_number as int]),
                    None,
                    false,
                )
            },
    {
        let capacity = self.algo.page_buffers.len();
        if buffer_number as usize >= capacity {
            return Err(FlasherError::InvalidBufferNumber(buffer_number, capacity as u32));
        }
        let pc = self.algo.pc_program_page;
        let page_size = self.region.page_size;
        let buffer_address = self.algo.page_buffers[buffer_number as usize];
        self.call_function(
            pc,
            Some(address),
            Some(page_size),
            Some(buffer_address),
            None,
            false,
        );
        Ok(())
    }

    /// Copies the bytes of an upcoming page into the numbered page buffer.
    /// An out-of-range buffer index fails with `InvalidBufferNumber` and
    /// issues nothing.
    pub fn load_page_buffer(&mut self, _address: u32, bytes: &Vec<u8>, buffer_number: u32) -> (r:
        Result<(), FlasherError>)
        requires
            old(self).algo.page_buffers@.len() <= u32::MAX,
        ensures
            final(self).algo == old(self).algo,
            final(self).region == old(self).region,
            final(self).probe.script() == old(self).probe.script(),
            final(self).probe.polled() == old(self).probe.polled(),
            if buffer_number as int >= old(self).algo.page_buffers@.len() {
                &&& r == Err::<(), FlasherError>(
                    FlasherError::InvalidBufferNumber(
                        buffer_number,
                        old(self).algo.page_buffers@.len() as u32,
                    ),
                )
                &&& *final(self) == *old(self)
            } else {
                &&& r == Ok::<(), FlasherError>(())
                &&& final(self).probe.trace() == old(self).probe.trace().push(
                    (OpView::WriteBlock8 {
                        address: old(self).algo.page_buffers@[buffer_number as int],
                        bytes: bytes@,
                    }),
                )
            },
    {
        let capacity = self.algo.page_buffers.len();
        if buffer_number as usize >= capacity {
            return Err(FlasherError::InvalidBufferNumber(buffer_number, capacity as u32));
        }
        let buffer_address = self.algo.page_buffers[buffer_number as usize];
        self.probe.write_block8(buffer_address, bytes);
        Ok(())
    }

    /// Programs one phrase.  The address and the byte count must both be
    /// multiples of the minimum programmable unit; a violation fails with
    /// the corresponding alignment error before anything reaches the
    /// transport.  Otherwise this behaves like `program_page` with errors
    /// tagged `ProgramPhrase`.
    pub fn program_phrase(&mut self, address: u32, bytes: &Vec<u8>) -> (r: Result<
        (),
        FlasherError,
    >)
        requires
            old(self).phrase_alignment() > 0,
            bytes@.len() <= u32::MAX,
        ensures
            final(self).algo == old(self).algo,
            final(self).region == old(self).region,
            final(self).probe.script() == old(self).probe.script(),
            ({
                let min = old(self).phrase_alignment();
                if address as int % min as int != 0 {
                    &&& r == Err::<(), FlasherError>(FlasherError::UnalignedFlashWriteAddress)
                    &&& *final(self) == *old(self)
                } else if bytes@.len() as int % min as int != 0 {
                    &&& r == Err::<(), FlasherError>(FlasherError::UnalignedPhraseLength)
                    &&& *final(self) == *old(self)
                } else {
                    let status = old(self).probe.next_status();
                    &&& final(self).probe.trace() == old(self).probe.trace() + program_page_ops(
                        old(self).algo,
                        address,
                        bytes@,
                    )
                    &&& final(self).probe.polled() == old(self).probe.polled_after_wait()
                    &&& r == (if status != 0 {
                        Err::<(), FlasherError>(FlasherError::ProgramPhrase(status, address))
                    } else {
                        Ok::<(), FlasherError>(())
                    })
                }
            }),
    {
        let min_len = match self.algo.min_program_length {
            Some(m) => m,
            None => self.region.page_size,
        };
        // Require the write address and length to be aligned to the
        // minimum programmable unit.
        if address % min_len != 0 {
            return Err(FlasherError::UnalignedFlashWriteAddress);
        }
        if (bytes.len() as u32) % min_len != 0 {
            return Err(FlasherError::UnalignedPhraseLength);
        }
        let data_address = self.algo.begin_data;
        let pc = self.algo.pc_program_page;
        self.probe.write_block8(data_address, bytes);
        let result = self.call_function_and_wait(
            pc,
            Some(address),
            Some(bytes.len() as u32),
            Some(data_address),
            None,
            false,
        );
        proof {
            assert(self.probe.trace() =~= old(self).probe.trace() + program_page_ops(
                old(self).algo,
                address,
                bytes@,
            ));
        }
        if result != 0 {
            Err(FlasherError::ProgramPhrase(result, address))
        } else {
            Ok(())
        }
    }

    /// Geometry of the sector holding `address`, or nothing when the
    /// address lies outside the region.
    pub fn get_sector_info(&self, address: u32) -> (r: Option<SectorInfo>)
        requires
            self.region.wf(),
        ensures
            r == spec_sector_info(self.region, address),
    {
        if !self.region.contains(address) {
            return None;
        }
        let remainder = address % self.region.sector_size;
        proof {
            lemma_mod_at_most(address as int, self.region.sector_size as int);
        }
        Some(
            SectorInfo {
                base_address: address - remainder,
                erase_weight: self.region.erase_sector_weight,
                size: self.region.sector_size,
            },
        )
    }

    /// Geometry of the page holding `address`, or nothing when the address
    /// lies outside the region.
    pub fn get_page_info(&self, address: u32) -> (r: Option<PageInfo>)
        requires
            self.region.wf(),
        ensures
            r == spec_page_info(self.region, address),
    {
        if !self.region.contains(address) {
            return None;
        }
        let remainder = address % self.region.page_size;
        proof {
            lemma_mod_at_most(address as int, self.region.page_size as int);
        }
        Some(
            PageInfo {
                base_address: address - remainder,
                program_weight: self.region.program_page_weight,
                size: self.region.page_size,
            },
        )
    }

    /// Summary of the flash bank holding `address`, or nothing when the
    /// address lies outside the region.
    pub fn get_flash_info(&self, address: u32) -> (r: Option<FlashInfo>)
        ensures
            r == spec_flash_info(self.region, self.algo.analyzer_supported, address),
    {
        if !self.region.contains(address) {
            return None;
        }
        Some(
            FlashInfo {
                rom_start: self.region.range_start,
                erase_weight: self.region.erase_all_weight,
                crc_supported: self.algo.analyzer_supported,
            },
        )
    }
}

/// The sector geometry reported for an address: nothing outside the
/// region, else the enclosing sector's base, size, and erase weight.
pub open spec fn spec_sector_info(region: FlashRegion, address: u32) -> Option<SectorInfo> {
    if !region.spec_contains(address) {
        None
    } else {
        Some(
            (SectorInfo {
                base_address: (address - address as int % region.sector_size as int) as u32,
                erase_weight: region.erase_sector_weight,
                size: region.sector_size,
            }),
        )
    }
}

/// The page geometry reported for an address: nothing outside the region,
/// else the enclosing page's base, size, and program weight.
pub open spec fn spec_page_info(region: FlashRegion, address: u32) -> Option<PageInfo> {
    if !region.spec_contains(address) {
        None
    } else {
        Some(
            (PageInfo {
                base_address: (address - address as int % region.page_size as int) as u32,
                program_weight: region.program_page_weight,
                size: region.page_size,
            }),
        )
    }
}

/// The bank summary reported for an address: nothing outside the region,
/// else its start, erase weight, and whether CRC verification is there.
pub open spec fn spec_flash_info(region: FlashRegion, analyzer_supported: bool, address: u32) -> Option<FlashInfo> {
    if !region.spec_contains(address) {
        None
    } else {
        Some(
            (FlashInfo {
                rom_start: region.range_start,
                erase_weight: region.erase_all_weight,
                crc_supported: analyzer_supported,
            }),
        )
    }
}

/// A non-negative number drops when reduced modulo a positive one.
proof fn lemma_mod_at_most(a: int, b: int)
    requires
        a >= 0,
        b > 0,
    ensures
        0 <= a % b <= a,
{
    vstd::arithmetic::div_mod::lemma_mod_decreases(a as nat, b as nat);
    vstd::arithmetic::div_mod::lemma_mod_bound(a, b);
}

/// Whether the operation sequence writes target memory at all.
pub open spec fn writes_memory(ops: Seq<OpView>) -> bool {
    exists|i: int|
        0 <= i < ops.len() && ((#[trigger] ops[i]) is WriteBlock8 || ops[i] is WriteBlock32)
}

/// Law: every register frame starts with the PC write, always forces LR to
/// the load address with the Thumb bit set, and ends by resuming the core.
/// An init frame also assigns R9 = `static_base` and SP = `begin_stack`; a
/// non-init frame writes neither R9 nor SP.  No frame touches target
/// memory.
pub proof fn lemma_frame_register_discipline(
    algo: FlashAlgorithm,
    pc: u32,
    r0: Option<u32>,
    r1: Option<u32>,
    r2: Option<u32>,
    r3: Option<u32>,
    init: bool,
)
    ensures
        ({
            let f = frame_ops(algo, pc, r0, r1, r2, r3, init);
            &&& f.len() > 0
            &&& f[0] == reg_write(CoreRegisterId::PC, pc)
            &&& f.contains(reg_write(CoreRegisterId::LR, algo.load_address | 1))
            &&& f.last() == OpView::Run
            &&& (init ==> f.contains(reg_write(CoreRegisterId::R9, algo.static_base)))
            &&& (init ==> f.contains(reg_write(CoreRegisterId::SP, algo.begin_stack)))
            &&& (!init ==> !writes_register(f, CoreRegisterId::R9))
            &&& (!init ==> !writes_register(f, CoreRegisterId::SP))
            &&& !writes_memory(f)
        }),
{
    let f = frame_ops(algo, pc, r0, r1, r2, r3, init);
    assert(f[f.len() - 2] == reg_write(CoreRegisterId::LR, algo.load_address | 1));
    assert(f.last() == OpView::Run);
    if init {
        assert(f[f.len() - 4] == reg_write(CoreRegisterId::R9, algo.static_base));
        assert(f[f.len() - 3] == reg_write(CoreRegisterId::SP, algo.begin_stack));
    } else {
        assert forall|i: int| 0 <= i < f.len() implies !(#[trigger] f[i] matches
            OpView::WriteCoreReg { reg: r, value: _ } && (r == CoreRegisterId::R9 || r
            == CoreRegisterId::SP)) by {}
    }
    assert forall|i: int| 0 <= i < f.len() implies !((#[trigger] f[i]) is WriteBlock8 || f[i]
        is WriteBlock32) by {}
}

/// Law: initialising for an operation and then deinitialising hands the
/// operation's numeric code to the algorithm both times: the init call
/// writes it to R2, the uninit call writes it to R0.
pub proof fn lemma_operation_code_routing(
    algo: FlashAlgorithm,
    address: Option<u32>,
    clock: Option<u32>,
    code: u32,
)
    ensures
        algo.pc_init is Some ==> init_ops(algo, address, clock, code).contains(
            reg_write(CoreRegisterId::R2, code),
        ),
        algo.pc_uninit is Some ==> uninit_ops(algo, code).contains(
            reg_write(CoreRegisterId::R0, code),
        ),
        algo.pc_init is Some && algo.pc_uninit is Some ==> ({
            let combined = init_ops(algo, address, clock, code) + uninit_ops(algo, code);
            exists|i: int, j: int|
                0 <= i < j < combined.len() && #[trigger] combined[i] == reg_write(
                    CoreRegisterId::R2,
                    code,
                ) && #[trigger] combined[j] == reg_write(CoreRegisterId::R0, code)
        }),
{
    if algo.pc_init is Some {
        let ops = init_ops(algo, address, clock, code);
        assert(ops[5] == reg_write(CoreRegisterId::R2, code));
    }
    if algo.pc_uninit is Some {
        let ops = uninit_ops(algo, code);
        assert(ops[1] == reg_write(CoreRegisterId::R0, code));
    }
    if algo.pc_init is Some && algo.pc_uninit is Some {
        let combined = init_ops(algo, address, clock, code) + uninit_ops(algo, code);
        assert(combined[5] == reg_write(CoreRegisterId::R2, code));
        assert(combined[init_ops(algo, address, clock, code).len() as int + 1] == reg_write(
            CoreRegisterId::R0,
            code,
        ));
    }
}

/// Law: a page or phrase program call transfers the data bytes to
/// `begin_data` as its very first transport operation -- before any
/// register write -- and no later operation of the call touches target
/// memory.  The frame then carries R0 = address, R1 = byte count and
/// R2 = `begin_data`, and the call ends with the wait for the halt.
pub proof fn lemma_program_page_data_first(algo: FlashAlgorithm, address: u32, bytes: Seq<u8>)
    ensures
        ({
            let ops = program_page_ops(algo, address, bytes);
            &&& ops.len() > 0
            &&& ops[0] == (OpView::WriteBlock8 { address: algo.begin_data, bytes })
            &&& forall|i: int|
                1 <= i < ops.len() ==> !((#[trigger] ops[i]) is WriteBlock8 || ops[i]
                    is WriteBlock32)
            &&& ops.contains(reg_write(CoreRegisterId::R0, address))
            &&& ops.contains(reg_write(CoreRegisterId::R1, bytes.len() as u32))
            &&& ops.contains(reg_write(CoreRegisterId::R2, algo.begin_data))
            &&& ops.last() == OpView::WaitForHalt
        }),
{
    let ops = program_page_ops(algo, address, bytes);
    assert(ops[2] == reg_write(CoreRegisterId::R0, address));
    assert(ops[3] == reg_write(CoreRegisterId::R1, bytes.len() as u32));
    assert(ops[4] == reg_write(CoreRegisterId::R2, algo.begin_data));
    assert forall|i: int| 1 <= i < ops.len() implies !((#[trigger] ops[i]) is WriteBlock8
        || ops[i] is WriteBlock32) by {}
}

} // verus!
