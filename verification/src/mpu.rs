//! The sensor driver handle.
//!
//! An [`Mpu`] owns the 7-bit slave address (fixed at construction) and the
//! 14-byte scratch buffer reused across reads. It decides; the application
//! performs: [`Mpu::begin`] replays the initialization machine over a whole
//! sequence of bus replies, [`Mpu::read_request`] names the one block
//! transaction a read needs, and [`Mpu::read`] consumes the reply, filling
//! the caller's output buffers with the decoded raw counts — or, when the
//! transaction failed, leaving them exactly as they were.

use vstd::prelude::*;

use crate::bus::{BusAction, BusEvent, ReadReply};
use crate::codec::{combine_be, field_at_spec};
use crate::init::{
    actions_from_spec, init_action, init_initial, init_initial_spec, init_step,
    run_from_spec, InitState, REG_ACCEL_XOUT_H,
};

verus! {

/// Milliseconds to wait after every read transaction, success or failure,
/// before issuing the next one. A pacing default, not a bus requirement:
/// it bounds the polling rate of the calling loop.
pub const DEFAULT_READ_PACING_MS: u64 = 100;

/// The number of contiguous output registers one read transaction fetches:
/// seven big-endian signed 16-bit fields.
pub const SAMPLE_BLOCK_LEN: usize = 14;

/// Driver handle for the sensor: slave address, reusable raw scratch
/// buffer, and the pacing delay applied after each read.
pub struct Mpu {
    slv_addr: u8,
    buff: [u8; 14],
    pacing_ms: u64,
}

impl Mpu {
    /// The 7-bit slave address the handle was built with.
    pub closed spec fn slave_addr_spec(&self) -> u8 {
        self.slv_addr
    }

    /// The raw scratch buffer's contents.
    pub closed spec fn scratch_spec(&self) -> Seq<u8> {
        self.buff@
    }

    /// The pacing delay applied after each read, in milliseconds.
    pub closed spec fn pacing_ms_spec(&self) -> u64 {
        self.pacing_ms
    }

    /// Builds a handle over the given slave address. The address must be
    /// the one selected by the hardware address pin — conventionally `0x68`
    /// with the pin low or `0x69` with it high. The scratch buffer starts
    /// zeroed and the pacing delay at its documented default.
    pub fn new(slv_addr: u8) -> (mpu: Self)
        ensures
            mpu.slave_addr_spec() == slv_addr,
            mpu.scratch_spec() == Seq::new(14, |i: int| 0u8),
            mpu.pacing_ms_spec() == DEFAULT_READ_PACING_MS,
    {
        let mpu = Mpu { slv_addr, buff: [0; 14], pacing_ms: DEFAULT_READ_PACING_MS };
        proof {
            assert(mpu.buff@ =~= Seq::new(14, |i: int| 0u8));
        }
        mpu
    }

    /// The slave address, for addressing the transactions the driver asks for.
    pub fn slave_address(&self) -> (addr: u8)
        ensures
            addr == self.slave_addr_spec(),
    {
        self.slv_addr
    }

    /// The pacing delay the application must insert after each read
    /// transaction, in milliseconds.
    pub fn read_pacing_ms(&self) -> (ms: u64)
        ensures
            ms == self.pacing_ms_spec(),
    {
        self.pacing_ms
    }

    /// Overrides the pacing delay. Shortening it raises the effective
    /// sample rate and may exceed the bus duty cycle the device's datasheet
    /// recommends; the default is the safe choice.
    pub fn set_read_pacing_ms(&mut self, ms: u64)
        ensures
            final(self).pacing_ms_spec() == ms,
            final(self).slave_addr_spec() == old(self).slave_addr_spec(),
            final(self).scratch_spec() == old(self).scratch_spec(),
    {
        self.pacing_ms = ms;
    }

    /// Replays the initialization machine over a whole sequence of bus
    /// replies, as a mock or a recorded session supplies one: returns every
    /// transaction the driver would issue, in order, and the state the run
    /// ends in. Live initialization instead alternates [`init_action`] and
    /// [`init_step`] one transaction at a time, with the settle delays
    /// between them.
    pub fn begin(&self, replies: &Vec<BusEvent>) -> (outcome: (Vec<BusAction>, InitState))
        ensures
            outcome.0@ == actions_from_spec(
                self.slave_addr_spec(),
                init_initial_spec(),
                replies@,
            ),
            outcome.1 == run_from_spec(init_initial_spec(), replies@),
    {
        let mut state = init_initial();
        let mut actions: Vec<BusAction> = Vec::new();
        let mut i: usize = 0;
        while i < replies.len()
            invariant
                i <= replies@.len(),
                state == run_from_spec(init_initial_spec(), replies@.take(i as int)),
                actions@ == actions_from_spec(
                    self.slave_addr_spec(),
                    init_initial_spec(),
                    replies@.take(i as int),
                ),
            decreases replies@.len() - i,
        {
            let pending = match &state {
                InitState::Pending(step) => {
                    let action = init_action(self.slv_addr, step);
                    actions.push(action);
                    true
                },
                _ => false,
            };
            if !pending {
                proof {
                    crate::init::lemma_terminal_absorbs(
                        self.slave_addr_spec(),
                        state,
                        replies@.skip(i as int),
                    );
                    crate::init::lemma_run_decompose(
                        self.slave_addr_spec(),
                        init_initial_spec(),
                        replies@,
                        i as int,
                    );
                }
                return (actions, state);
            }
            let next = init_step(&state, &replies[i]);
            proof {
                assert(replies@.take(i as int + 1) =~= replies@.take(i as int).push(
                    replies@[i as int],
                ));
                crate::init::lemma_run_push(
                    self.slave_addr_spec(),
                    init_initial_spec(),
                    replies@.take(i as int),
                    replies@[i as int],
                );
            }
            state = next;
            i = i + 1;
        }
        proof {
            assert(replies@.take(replies@.len() as int) =~= replies@);
        }
        (actions, state)
    }

    /// The one bus transaction a read needs: write the address of the first
    /// output register, then read the whole 14-byte sample block back.
    pub fn read_request(&self) -> (action: BusAction)
        ensures
            action == (BusAction::WriteRead {
                slave: self.slave_addr_spec(),
                reg: REG_ACCEL_XOUT_H,
                read_len: SAMPLE_BLOCK_LEN,
            }),
    {
        BusAction::WriteRead {
            slave: self.slv_addr,
            reg: REG_ACCEL_XOUT_H,
            read_len: SAMPLE_BLOCK_LEN,
        }
    }

    /// Consumes the reply to a read transaction. On data, the scratch
    /// buffer is fully overwritten with the fresh block — never partially,
    /// so stale bytes are never decoded as fresh — and the output buffers
    /// receive the decoded raw counts: accelerometer fields at byte offsets
    /// 0, 2 and 4, gyroscope fields at 8, 10 and 12; the temperature field
    /// at offset 6 is left undecoded. On failure the outputs and the
    /// scratch buffer keep their previous values, byte for byte, and the
    /// result says the caller holds stale data. Scaling the counts into g
    /// and degrees per second is the caller's floating-point step.
    pub fn read(
        &mut self,
        reply: &ReadReply,
        accel_out: &mut [i16; 3],
        gyro_out: &mut [i16; 3],
    ) -> (fresh: bool)
        ensures
            fresh == (*reply matches ReadReply::Data(_)),
            *reply matches ReadReply::Data(block) ==> {
                &&& final(self).scratch_spec() == block@
                &&& final(accel_out)@[0] as int == field_at_spec(block@, 0)
                &&& final(accel_out)@[1] as int == field_at_spec(block@, 2)
                &&& final(accel_out)@[2] as int == field_at_spec(block@, 4)
                &&& final(gyro_out)@[0] as int == field_at_spec(block@, 8)
                &&& final(gyro_out)@[1] as int == field_at_spec(block@, 10)
                &&& final(gyro_out)@[2] as int == field_at_spec(block@, 12)
            },
            *reply is Failed ==> {
                &&& *final(self) == *old(self)
                &&& *final(accel_out) == *old(accel_out)
                &&& *final(gyro_out) == *old(gyro_out)
            },
            final(self).slave_addr_spec() == old(self).slave_addr_spec(),
            final(self).pacing_ms_spec() == old(self).pacing_ms_spec(),
    {
        match reply {
            ReadReply::Data(block) => {
                self.buff = *block;
                accel_out[0] = combine_be(self.buff[0], self.buff[1]);
                accel_out[1] = combine_be(self.buff[2], self.buff[3]);
                accel_out[2] = combine_be(self.buff[4], self.buff[5]);
                gyro_out[0] = combine_be(self.buff[8], self.buff[9]);
                gyro_out[1] = combine_be(self.buff[10], self.buff[11]);
                gyro_out[2] = combine_be(self.buff[12], self.buff[13]);
                true
            },
            ReadReply::Failed => false,
        }
    }
}

} // verus!
