//! Waveform output path: the output-code/voltage converter and the
//! hardware-timed, double-buffered output channel.
//!
//! The converter maps the 16-bit offset-binary code that the output
//! register holds to a signed sample and to an exact physical voltage.
//! The channel owns three fixed-size sample buffers whose roles rotate
//! between software (filling) and the transfer engine (armed, active).

use vstd::prelude::*;

verus! {

/// Number of output codes in one sample buffer: one batch, shared with
/// the input-sampling path.
pub const SAMPLE_BUFFER_SIZE: usize = 8;

/// Volts per count of the output stage, held exactly in nanovolts:
/// a 4.096 V reference through a 2.5x gain stage over 2^15 counts is
/// 10.24 V / 32768 = 312500 nV per count.
pub const OUTPUT_NANOVOLTS_PER_LSB: i64 = 312500;

/// One output sample in the converter's native offset-binary form.
/// The field is the raw code written to the output register.
#[derive(Clone, Copy, PartialEq, Eq, Structural, Debug)]
pub struct DacCode(pub u16);

/// Offset-binary and two's-complement differ only in the top bit.
pub open spec fn spec_flip(code: u16) -> u16 {
    code ^ 0x8000
}

/// The signed value that an offset-binary code denotes: the midpoint
/// 0x8000 denotes zero, smaller codes are negative.
pub open spec fn spec_signed_of_code(code: u16) -> int {
    code - 0x8000
}

/// The voltage a code produces at the output stage, in nanovolts.
pub open spec fn spec_voltage_nv(code: u16) -> int {
    spec_signed_of_code(code) * OUTPUT_NANOVOLTS_PER_LSB
}

impl From<i16> for DacCode {
    /// Build a code from a 16-bit signed sample by flipping its top bit.
    fn from(value: i16) -> DacCode {
        DacCode(#[verifier::truncate] (value as u16) ^ 0x8000)
    }
}

impl vstd::std_specs::convert::FromSpecImpl<i16> for DacCode {
    open spec fn obeys_from_spec() -> bool {
        true
    }

    open spec fn from_spec(value: i16) -> DacCode {
        DacCode(spec_flip(value as u16))
    }
}

impl DacCode {
    /// The signed sample this code denotes, obtained by flipping the top
    /// bit and reinterpreting the result as two's-complement.
    pub fn to_i16(self) -> (r: i16)
        ensures
            r == spec_signed_of_code(self.0),
    {
        let flipped: u16 = self.0 ^ 0x8000;
        proof {
            let c = self.0;
            assert((c ^ 0x8000) as i16 == c - 0x8000) by (bit_vector);
        }
        #[verifier::truncate] (flipped as i16)
    }

    /// The voltage this code produces, exact in nanovolts.
    pub fn voltage_nanovolts(self) -> (nv: i64)
        ensures
            nv == spec_voltage_nv(self.0),
    {
        let signed = self.to_i16();
        (signed as i64) * OUTPUT_NANOVOLTS_PER_LSB
    }
}

/// Flipping the top bit is its own inverse: converting a code to its
/// signed form and back recovers every 16-bit code exactly.
pub proof fn lemma_flip_involution(c: u16)
    ensures
        spec_flip(spec_flip(c)) == c,
{
    assert((c ^ 0x8000) ^ 0x8000 == c) by (bit_vector);
}

/// Round trip through the signed domain: the code built from the signed
/// value of `c` is `c` itself.
pub proof fn lemma_code_signed_roundtrip(c: u16)
    ensures
        spec_flip((spec_signed_of_code(c) as i16) as u16) == c,
{
    assert(((c - 0x8000) as i16) as u16 == (c ^ 0x8000)) by (bit_vector);
    lemma_flip_involution(c);
}

/// The code midpoint 0x8000 maps to exactly zero volts.
pub proof fn lemma_voltage_zero_at_midpoint()
    ensures
        spec_voltage_nv(0x8000) == 0,
{
}

/// Voltage scaling is linear: the voltage difference of two codes is the
/// code difference times the per-count step.
pub proof fn lemma_voltage_linear(c1: u16, c2: u16)
    ensures
        spec_voltage_nv(c1) - spec_voltage_nv(c2) == (c1 - c2) * OUTPUT_NANOVOLTS_PER_LSB,
{
    assert((c1 - 0x8000) * OUTPUT_NANOVOLTS_PER_LSB - (c2 - 0x8000) * OUTPUT_NANOVOLTS_PER_LSB
        == (c1 - c2) * OUTPUT_NANOVOLTS_PER_LSB) by (nonlinear_arith);
}

/// Voltage scaling is symmetric about the midpoint: codes at equal
/// distance above and below 0x8000 map to opposite voltages.
pub proof fn lemma_voltage_symmetric(d: u16)
    requires
        d <= 0x7fff,
    ensures
        spec_voltage_nv((0x8000 + d) as u16) == -spec_voltage_nv((0x8000 - d) as u16),
{
    assert(spec_signed_of_code((0x8000 + d) as u16) == d);
    assert(spec_signed_of_code((0x8000 - d) as u16) == -(d as int));
    assert(d * OUTPUT_NANOVOLTS_PER_LSB == -((-(d as int)) * OUTPUT_NANOVOLTS_PER_LSB))
        by (nonlinear_arith);
}

/// Voltage is strictly monotonically increasing in the code.
pub proof fn lemma_voltage_monotonic(c1: u16, c2: u16)
    requires
        c1 < c2,
    ensures
        spec_voltage_nv(c1) < spec_voltage_nv(c2),
{
    assert((c1 - 0x8000) * OUTPUT_NANOVOLTS_PER_LSB < (c2 - 0x8000) * OUTPUT_NANOVOLTS_PER_LSB)
        by (nonlinear_arith)
        requires
            c1 < c2,
    ;
}

/// One command a channel has issued to its transfer engine: an entry
/// of the channel's ghost record of what software asked of the
/// hardware.
pub enum EngineCommand {
    Configure { compare_value: u8, first: int, second: int },
    Start,
    WaitComplete,
    NextTransfer { next: int },
}

/// The hardware transfer engine behind one output channel: a timer
/// compare channel that raises one transfer request per tick and a
/// double-buffered memory-to-peripheral stream that consumes one code
/// per request. The platform that owns the timer, the stream and the
/// bus peripheral supplies the implementation; buffers are named by
/// their slot index in the channel's arena. Nothing is promised of
/// timing or completion: those are the hardware's own.
pub trait TransferEngine {
    /// Arm the trigger at the given timer compare value and hand the
    /// engine the two slots it starts consuming from. Sibling channels
    /// use distinct compare values so their requests do not race for
    /// the bus.
    fn configure(&mut self, compare_value: u8, first: usize, second: usize);

    /// Enable the bus peripheral and commit the engine: from now on it
    /// consumes one code per timer event, re-arming itself with the
    /// other hardware-owned slot whenever one is exhausted, without
    /// software intervention.
    fn start(&mut self);

    /// Busy-wait — deliberately without timeout or yielding — until
    /// the in-flight buffer has been fully consumed: a spin on the
    /// engine's completion flag, not a blocking system call. A stalled
    /// hardware event source spins forever; that is a known limitation
    /// of the design, not a failure path to recover from.
    fn wait_transfer_complete(&mut self);

    /// Hand the engine the slot it consumes next and release the slot
    /// it just finished.
    fn next_transfer(&mut self, next: usize);
}

/// One waveform output channel: an arena of three fixed-size sample
/// buffers whose ownership rotates among three roles — `filling`
/// (owned by software), `armed` (queued in the engine) and `active`
/// (being streamed) — with exactly one buffer in each role at every
/// instant. That rotation is the invariant this type exists to keep.
/// The ghost command log records, beside each engine call, what was
/// asked of the hardware, so the contracts can say exactly which slot
/// was handed over and when.
pub struct OutputChannel<E> {
    engine: E,
    bufs: Vec<Vec<u16>>,
    filling: usize,
    armed: usize,
    active: usize,
    commands: Ghost<Seq<EngineCommand>>,
}

impl<E> OutputChannel<E> {
    /// Well-formed: three buffers of one batch each, and the three
    /// roles name three distinct slots.
    pub closed spec fn wf(&self) -> bool {
        &&& self.bufs@.len() == 3
        &&& forall|s: int| 0 <= s < 3 ==> self.bufs@[s]@.len() == SAMPLE_BUFFER_SIZE
        &&& self.filling < 3
        &&& self.armed < 3
        &&& self.active < 3
        &&& self.filling != self.armed
        &&& self.armed != self.active
        &&& self.filling != self.active
    }

    /// The slot software owns and fills.
    pub closed spec fn filling_slot(&self) -> int {
        self.filling as int
    }

    /// The slot queued in the engine.
    pub closed spec fn armed_slot(&self) -> int {
        self.armed as int
    }

    /// The slot the engine is streaming.
    pub closed spec fn active_slot(&self) -> int {
        self.active as int
    }

    /// The contents of a slot.
    pub closed spec fn buf(&self, s: int) -> Seq<u16> {
        self.bufs@[s]@
    }
}

/// A fresh buffer of one batch, explicitly zero-filled: the backing
/// storage is not guaranteed to start zeroed.
fn zeroed_buffer() -> (r: Vec<u16>)
    ensures
        r@.len() == SAMPLE_BUFFER_SIZE,
        forall|i: int| 0 <= i < SAMPLE_BUFFER_SIZE ==> r@[i] == 0,
{
    let mut r: Vec<u16> = Vec::new();
    let mut i: usize = 0;
    while i < SAMPLE_BUFFER_SIZE
        invariant
            i <= SAMPLE_BUFFER_SIZE,
            r@.len() == i,
            forall|j: int| 0 <= j < i ==> r@[j] == 0,
        decreases SAMPLE_BUFFER_SIZE - i,
    {
        r.push(0);
        i = i + 1;
    }
    r
}

impl<E: TransferEngine> OutputChannel<E> {
    /// The commands software has issued to the engine since
    /// construction, oldest first.
    pub closed spec fn commands(&self) -> Seq<EngineCommand> {
        self.commands@
    }

    /// Construct the channel: zero-fill all three buffers, arm the
    /// trigger at a small per-channel tick offset so sibling channels
    /// do not contend for the bus, hand the engine its two starting
    /// slots, and leave the stream stopped.
    pub fn new(engine: E, index: u8) -> (r: Self)
        requires
            index < 2,
        ensures
            r.wf(),
            r.active_slot() == 0,
            r.armed_slot() == 1,
            r.filling_slot() == 2,
            forall|s: int, i: int|
                0 <= s < 3 && 0 <= i < SAMPLE_BUFFER_SIZE ==> r.buf(s)[i] == 0,
            r.commands() == seq![
                EngineCommand::Configure { compare_value: (4 + index) as u8, first: 0, second: 1 },
            ],
    {
        let mut engine = engine;
        engine.configure(4 + index, 0, 1);
        let mut bufs: Vec<Vec<u16>> = Vec::new();
        bufs.push(zeroed_buffer());
        bufs.push(zeroed_buffer());
        bufs.push(zeroed_buffer());
        let ghost cmds = seq![
            EngineCommand::Configure { compare_value: (4 + index) as u8, first: 0, second: 1 },
        ];
        OutputChannel { engine, bufs, filling: 2, armed: 1, active: 0, commands: Ghost(cmds) }
    }

    /// Commit the engine to begin consuming the two hardware-owned
    /// buffers on each subsequent timer event. From here on, output
    /// generation is driven entirely by the hardware until the
    /// peripheral is disabled; software only chooses how promptly it
    /// refills.
    pub fn start(&mut self)
        requires
            old(self).wf(),
        ensures
            final(self).wf(),
            final(self).filling_slot() == old(self).filling_slot(),
            final(self).armed_slot() == old(self).armed_slot(),
            final(self).active_slot() == old(self).active_slot(),
            forall|s: int| 0 <= s < 3 ==> final(self).buf(s) == old(self).buf(s),
            final(self).commands() == old(self).commands().push(EngineCommand::Start),
    {
        self.engine.start();
        self.commands = Ghost(self.commands@.push(EngineCommand::Start));
    }

    /// The sole software/hardware synchronization point. Spins until
    /// the engine reports its in-flight buffer fully consumed, then
    /// performs exactly one role rotation: the buffer software just
    /// filled becomes armed, the armed buffer becomes active, and the
    /// buffer that just finished streaming is returned to software as
    /// the new filling buffer, whose slot index is the result. The
    /// caller must refill it within one batch period —
    /// SAMPLE_BUFFER_SIZE timer ticks — or the engine re-presents the
    /// previous batch, shifting the stream by one batch; that
    /// condition is not detected or reported here, by design.
    pub fn acquire_buffer(&mut self) -> (r: usize)
        requires
            old(self).wf(),
        ensures
            final(self).wf(),
            final(self).filling_slot() == old(self).active_slot(),
            final(self).armed_slot() == old(self).filling_slot(),
            final(self).active_slot() == old(self).armed_slot(),
            (final(self).filling_slot(), final(self).armed_slot(), final(self).active_slot())
                == spec_rotate(
                (old(self).filling_slot(), old(self).armed_slot(), old(self).active_slot()),
            ),
            r as int == final(self).filling_slot(),
            forall|s: int| 0 <= s < 3 ==> final(self).buf(s) == old(self).buf(s),
            final(self).commands() == old(self).commands().push(
                EngineCommand::WaitComplete,
            ).push(EngineCommand::NextTransfer { next: old(self).filling_slot() }),
    {
        self.engine.wait_transfer_complete();
        self.commands = Ghost(self.commands@.push(EngineCommand::WaitComplete));
        let new_filling = self.active;
        let new_active = self.armed;
        let new_armed = self.filling;
        self.filling = new_filling;
        self.armed = new_armed;
        self.active = new_active;
        self.engine.next_transfer(new_armed);
        self.commands = Ghost(
            self.commands@.push(EngineCommand::NextTransfer { next: new_armed as int }),
        );
        new_filling
    }

    /// Store one output code at position `i` of the buffer software
    /// currently owns.
    pub fn write_code(&mut self, i: usize, code: u16)
        requires
            old(self).wf(),
            i < SAMPLE_BUFFER_SIZE,
        ensures
            final(self).wf(),
            final(self).filling_slot() == old(self).filling_slot(),
            final(self).armed_slot() == old(self).armed_slot(),
            final(self).active_slot() == old(self).active_slot(),
            final(self).buf(old(self).filling_slot()) == old(self).buf(
                old(self).filling_slot(),
            ).update(i as int, code),
            forall|s: int|
                0 <= s < 3 && s != old(self).filling_slot() ==> final(self).buf(s) == old(
                    self,
                ).buf(s),
            final(self).commands() == old(self).commands(),
    {
        let f = self.filling;
        self.bufs[f][i] = code;
    }

    /// The code at position `i` of slot `s`, for observation.
    pub fn code_at(&self, s: usize, i: usize) -> (r: u16)
        requires
            self.wf(),
            s < 3,
            i < SAMPLE_BUFFER_SIZE,
        ensures
            r == self.buf(s as int)[i as int],
    {
        self.bufs[s][i]
    }

    /// The owned transfer engine, for callers that need to observe it.
    pub fn engine(&self) -> &E {
        &self.engine
    }

    /// The slot software currently owns.
    pub fn filling_index(&self) -> (r: usize)
        ensures
            r as int == self.filling_slot(),
    {
        self.filling
    }

    /// The slot queued in the engine.
    pub fn armed_index(&self) -> (r: usize)
        ensures
            r as int == self.armed_slot(),
    {
        self.armed
    }

    /// The slot the engine is streaming.
    pub fn active_index(&self) -> (r: usize)
        ensures
            r as int == self.active_slot(),
    {
        self.active
    }
}

/// The role rotation one acquire performs, on the triple (filling,
/// armed, active) of slot identities.
pub open spec fn spec_rotate(roles: (int, int, int)) -> (int, int, int) {
    (roles.2, roles.0, roles.1)
}

/// Three consecutive acquires return every buffer to its original
/// role: the rotation is a three-cycle.
pub proof fn lemma_rotation_three_cycle(roles: (int, int, int))
    ensures
        spec_rotate(spec_rotate(spec_rotate(roles))) == roles,
{
}

/// One rotation visits the same three buffer identities: no buffer is
/// dropped, duplicated, or ever referenced by two roles at once.
pub proof fn lemma_rotation_permutes(roles: (int, int, int))
    ensures
        set![spec_rotate(roles).0, spec_rotate(roles).1, spec_rotate(roles).2] == set![
            roles.0,
            roles.1,
            roles.2,
        ],
        roles.0 != roles.1 && roles.1 != roles.2 && roles.0 != roles.2 ==> spec_rotate(roles).0
            != spec_rotate(roles).1 && spec_rotate(roles).1 != spec_rotate(roles).2 && spec_rotate(
            roles,
        ).0 != spec_rotate(roles).2,
{
    assert(set![spec_rotate(roles).0, spec_rotate(roles).1, spec_rotate(roles).2] =~= set![
        roles.0,
        roles.1,
        roles.2,
    ]);
}

} // verus!
