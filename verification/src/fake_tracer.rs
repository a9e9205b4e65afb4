//! A tracer without a process: it keeps what is written to it and serves
//! reads from bytes it was given.
use vstd::prelude::*;

use crate::codec::splice;
use crate::game_2::GameTracer;
use crate::interpreter::InstructionEncoding;
use crate::machine::{cost_of, receive, send, Step, Vm};
use crate::tracer::{Tracer, TracerError};

verus! {

/// What a `FakeTracer` holds.
pub struct FakeChannel {
    /// Every byte written so far, in order.
    pub input: Seq<u8>,
    /// The bytes that reads are served from.
    pub output: Seq<u8>,
    /// How many bytes of `output` were read so far.
    pub cursor: int,
}

/// A tracer for tests.
pub struct FakeTracer {
    stdin: Vec<u8>,
    stdout: Vec<u8>,
    stdout_pos: usize,
}

impl View for FakeTracer {
    type V = FakeChannel;

    closed spec fn view(&self) -> FakeChannel {
        FakeChannel { input: self.stdin@, output: self.stdout@, cursor: self.stdout_pos as int }
    }
}

/// Number of bytes that a read into a buffer of `room` bytes takes from
/// `channel`: as many as the buffer holds, or as many as are left.
pub open spec fn served(channel: FakeChannel, room: int) -> int {
    if channel.cursor >= channel.output.len() {
        0
    } else if room <= channel.output.len() - channel.cursor {
        room
    } else {
        channel.output.len() - channel.cursor
    }
}

impl FakeTracer {
    /// A tracer that has been written nothing and serves the bytes of
    /// `stdout`.
    pub fn new(stdout: String) -> (tracer: Self)
        ensures
            tracer@ == (FakeChannel {
                input: Seq::empty(),
                output: vstd::utf8::encode_utf8(stdout@),
                cursor: 0,
            }),
    {
        let bytes = vstd::slice::slice_to_vec(stdout.as_str().as_bytes());
        Self { stdin: Vec::new(), stdout: bytes, stdout_pos: 0 }
    }

    /// A copy of every byte written so far.
    pub fn copy_stdin(&self) -> (written: Vec<u8>)
        ensures
            written@ == self@.input,
    {
        self.stdin.clone()
    }
}

impl Tracer for FakeTracer {
    /// A write appends all of `data` to what was written, and cannot fail.
    open spec fn wrote(
        before: Self,
        data: Seq<u8>,
        after: Self,
        outcome: Result<usize, TracerError>,
    ) -> bool {
        &&& after@ == (FakeChannel { input: before@.input + data, ..before@ })
        &&& outcome == Ok::<usize, TracerError>(data.len() as usize)
    }

    fn write_out(&mut self, buf: &[u8]) -> (outcome: Result<usize, TracerError>) {
        let length: usize = buf.len();
        let mut k: usize = 0;
        assert(self.stdin@ =~= old(self).stdin@ + buf@.subrange(0, 0));
        while k < length
            invariant
                k <= length == buf@.len(),
                self.stdin@ == old(self).stdin@ + buf@.subrange(0, k as int),
                self.stdout == old(self).stdout,
                self.stdout_pos == old(self).stdout_pos,
            decreases length - k,
        {
            self.stdin.push(buf[k]);
            assert(self.stdin@ =~= old(self).stdin@ + buf@.subrange(0, k + 1));
            k += 1;
        }
        assert(buf@.subrange(0, length as int) =~= buf@);
        Ok(length)
    }

    /// A read copies the next bytes of the output to the front of the
    /// buffer, as many as the buffer holds or as are left, leaves the rest
    /// of the buffer as it was, and cannot fail.
    open spec fn read(
        before: Self,
        buffer: Seq<u8>,
        after: Self,
        filled: Seq<u8>,
        outcome: Result<usize, TracerError>,
    ) -> bool {
        let count = served(before@, buffer.len() as int);
        &&& after@ == (FakeChannel { cursor: before@.cursor + count, ..before@ })
        &&& filled == Seq::new(
            buffer.len(),
            |i: int|
                if i < count {
                    before@.output[before@.cursor + i]
                } else {
                    buffer[i]
                },
        )
        &&& outcome == Ok::<usize, TracerError>(count as usize)
    }

    fn read_in(&mut self, buf: &mut [u8]) -> (outcome: Result<usize, TracerError>) {
        let room: usize = buf.len();
        let total: usize = self.stdout.len();
        let left: usize = if self.stdout_pos >= total {
            0
        } else {
            total - self.stdout_pos
        };
        let read_n: usize = if room <= left {
            room
        } else {
            left
        };
        if read_n == 0 {
            assert(buf@ =~= Seq::new(
                old(buf)@.len(),
                |i: int|
                    if i < 0 {
                        old(self)@.output[old(self)@.cursor + i]
                    } else {
                        old(buf)@[i]
                    },
            ));
            return Ok(0);
        }
        let start: usize = self.stdout_pos;
        let mut k: usize = 0;
        while k < read_n
            invariant
                k <= read_n <= room == buf@.len() == old(buf)@.len(),
                start + read_n <= self.stdout@.len() == total,
                forall|i: int| 0 <= i < k ==> buf@[i] == self.stdout@[start + i],
                forall|i: int| k <= i < room ==> buf@[i] == old(buf)@[i],
            decreases read_n - k,
        {
            buf[k] = self.stdout[start + k];
            k += 1;
        }
        assert(buf@ =~= Seq::new(
            old(buf)@.len(),
            |i: int|
                if i < read_n {
                    self.stdout@[start + i]
                } else {
                    old(buf)@[i]
                },
        ));
        self.stdout_pos = start + read_n;
        Ok(read_n)
    }
}

impl GameTracer for FakeTracer {
    /// Every byte of the process that is not there reads as zero.
    open spec fn peeked(
        before: Self,
        byte_offset: u64,
        after: Self,
        outcome: Result<u8, TracerError>,
    ) -> bool {
        after == before && outcome == Ok::<u8, TracerError>(0)
    }

    fn read_byte(&mut self, byte_offset: u64) -> (outcome: Result<u8, TracerError>) {
        Ok(0)
    }

    /// A write to the process that is not there is dropped.
    open spec fn poked(
        before: Self,
        byte_offset: u64,
        value: u8,
        after: Self,
        outcome: Result<(), TracerError>,
    ) -> bool {
        after == before && outcome == Ok::<(), TracerError>(())
    }

    fn write_byte(&mut self, byte_offset: u64, value: u8) -> (outcome: Result<(), TracerError>) {
        Ok(())
    }
}

/// On a machine with a fake tracer, a write that the gas covers succeeds, and
/// the tracer then holds the bytes of memory that were written after what it
/// held before; nothing else changes but the gas and the program counter.
pub proof fn law_fake_write(
    vm: Vm<FakeTracer>,
    source: int,
    length: int,
    consumed: int,
    step: Step<FakeTracer>,
)
    requires
        vm.tracer is Some,
        cost_of(vm, InstructionEncoding::WriteStdin, Some(length as usize)) <= vm.gas,
        send(vm, source, length, consumed, step),
    ensures
        step.result is Ok,
        step.vm.tracer is Some,
        step.vm.tracer->0@ == (FakeChannel {
            input: vm.tracer->0@.input + vm.memory.subrange(source, source + length),
            ..vm.tracer->0@
        }),
        step.vm == (Vm {
            tracer: step.vm.tracer,
            gas: (vm.gas - cost_of(
                vm,
                InstructionEncoding::WriteStdin,
                Some(length as usize),
            )) as usize,
            pc: (vm.pc + consumed) as usize,
            ..vm
        }),
{
}

/// On a machine with a fake tracer, a read that the gas covers succeeds: the
/// next bytes of the tracer's output, as many as were asked for or as are
/// left, stand in memory from the destination on, and the tracer has moved
/// past them; the rest of memory is as it was.
pub proof fn law_fake_read(
    vm: Vm<FakeTracer>,
    destination: int,
    length: int,
    consumed: int,
    step: Step<FakeTracer>,
)
    requires
        vm.tracer is Some,
        vm.memory.len() == 1024,
        0 <= destination,
        0 <= length,
        destination + length <= 1024,
        0 <= vm.tracer->0@.cursor <= vm.tracer->0@.output.len(),
        0 <= consumed,
        vm.pc + consumed <= usize::MAX,
        cost_of(vm, InstructionEncoding::ReadStdout, Some(length as usize)) <= vm.gas,
        receive(vm, destination, length, consumed, step),
    ensures
        step.result is Ok,
        step.vm.tracer is Some,
        step.vm.tracer->0@ == (FakeChannel {
            cursor: vm.tracer->0@.cursor + served(vm.tracer->0@, length),
            ..vm.tracer->0@
        }),
        step.vm.memory == splice(
            vm.memory,
            destination,
            vm.tracer->0@.output.subrange(
                vm.tracer->0@.cursor,
                vm.tracer->0@.cursor + served(vm.tracer->0@, length),
            ),
        ),
        step.vm.pc == vm.pc + consumed,
        step.vm.tracer->0@.cursor <= vm.tracer->0@.output.len(),
{
    let channel = vm.tracer->0@;
    let count = served(channel, length);
    let buffer = vm.memory.subrange(destination, destination + length);
    let filled = Seq::new(
        buffer.len(),
        |i: int|
            if i < count {
                channel.output[channel.cursor + i]
            } else {
                buffer[i]
            },
    );
    assert(splice(vm.memory, destination, filled) =~= splice(
        vm.memory,
        destination,
        channel.output.subrange(channel.cursor, channel.cursor + count),
    ));
}

} // verus!
