//! Laws the processor obeys, proved once and for all states.

use vstd::prelude::*;
use crate::bus::Bus;
use crate::cpu::{
    Cpu, Flags, spec_step, spec_push, flags_to_byte, flags_from_byte, base_cycle_cost,
    cb_cycle_cost, jr_condition,
};
use crate::interconnect::{
    MockInterconnect, Interconnect, DmaState, ic_wf, spec_read, spec_inner_read, spec_write,
    spec_dma_tick, spec_dma_ticks, same_bus_segment,
};
use crate::nums::{w_add, w_sub, hw, hi8, lo8, lemma_hw_recompose};

verus! {

/// How many operand bytes follow each opcode (the escape opcode's
/// extension byte counts as its operand).
pub open spec fn operand_count(op: u8) -> u16 {
    match op {
        0x06 | 0x0e | 0x16 | 0x18 | 0x1e | 0x20 | 0x26 | 0x28 | 0x2e | 0x30 | 0x36 | 0x38 | 0x3e
            | 0xc6 | 0xcb | 0xce | 0xd6 | 0xde | 0xe0 | 0xe6 | 0xe8 | 0xee | 0xf0 | 0xf6 | 0xf8
            | 0xfe => 1,
        0x01 | 0x08 | 0x11 | 0x21 | 0x31 | 0xc3 | 0xcd | 0xea | 0xfa => 2,
        _ => 0,
    }
}

/// The instructions that load the program counter directly instead of
/// advancing it past their operands.
pub open spec fn is_control_transfer(op: u8) -> bool {
    op == 0x18 || op == 0x20 || op == 0x28 || op == 0x30 || op == 0x38 || op == 0xc3 || op == 0xc9
        || op == 0xcd
}

proof fn lemma_cb_cost(sub: u8)
    by (bit_vector)
    requires
        0x30 <= sub <= 0x37,
    ensures
        (sub & 7 == 6) <==> sub == 0x36,
{
}

/// The cycle-and-counter law, for one starting state.
pub open spec fn cycles_and_pc_ok<B: Bus>(c: Cpu, b: B) -> bool {
    spec_step(c, b) matches Some((c2, cyc)) ==> {
        let op = b.bus_read(c.pc);
        &&& cyc == if op == 0xcb {
            base_cycle_cost(op) + cb_cycle_cost(b.bus_read(w_add(c.pc, 1)))
        } else if (op == 0x20 || op == 0x28 || op == 0x30 || op == 0x38) && jr_condition(
            c.f,
            op,
        ) {
            base_cycle_cost(op) + 4
        } else {
            base_cycle_cost(op) as int
        }
        &&& !is_control_transfer(op) ==> c2.pc == w_add(c.pc, (1 + operand_count(op)) as u16)
    }
}

#[verifier::spinoff_prover]
#[verifier::rlimit(100)]
proof fn lemma_cycles_low<B: Bus>(c: Cpu, b: B)
    requires
        b.bus_read(c.pc) <= 0x3f,
    ensures
        cycles_and_pc_ok(c, b),
{
}

proof fn lemma_ld_mem_ops(op: u8)
    by (bit_vector)
    requires
        0x40 <= op <= 0x7f,
        op != 0x76,
    ensures
        (op & 7 == 6 || (op >> 3) & 7 == 6) <==> (op == 0x46 || op == 0x4e || op == 0x56 || op
            == 0x5e || op == 0x66 || op == 0x6e || op == 0x70 || op == 0x71 || op == 0x72 || op
            == 0x73 || op == 0x74 || op == 0x75 || op == 0x77 || op == 0x7e),
{
}

proof fn lemma_alu_mem_ops(op: u8)
    by (bit_vector)
    requires
        0x80 <= op <= 0xbf,
    ensures
        (op & 7 == 6) <==> (op == 0x86 || op == 0x8e || op == 0x96 || op == 0x9e || op == 0xa6
            || op == 0xae || op == 0xb6 || op == 0xbe),
{
}

#[verifier::spinoff_prover]
#[verifier::rlimit(100)]
proof fn lemma_cycles_mid<B: Bus>(c: Cpu, b: B)
    requires
        0x40 <= b.bus_read(c.pc) <= 0xbf,
    ensures
        cycles_and_pc_ok(c, b),
{
    let op = b.bus_read(c.pc);
    if op <= 0x7f && op != 0x76 {
        lemma_ld_mem_ops(op);
    } else if 0x80 <= op {
        lemma_alu_mem_ops(op);
    }
}

#[verifier::spinoff_prover]
#[verifier::rlimit(100)]
proof fn lemma_cycles_high<B: Bus>(c: Cpu, b: B)
    requires
        0xc0 <= b.bus_read(c.pc),
    ensures
        cycles_and_pc_ok(c, b),
{
    let op = b.bus_read(c.pc);
    if op == 0xcb {
        let sub = b.bus_read(w_add(c.pc, 1));
        if 0x30 <= sub && sub <= 0x37 {
            lemma_cb_cost(sub);
        }
    }
}

/// For every defined instruction, one step consumes exactly the base-table
/// cycles — plus the extended-table entry after the escape opcode, plus the
/// fixed extra for a conditional jump exactly when its condition is true —
/// and advances the program counter by exactly one plus the instruction's
/// operand-byte count, except for control transfers, which load it.
pub proof fn lemma_step_cycles_and_pc<B: Bus>(c: Cpu, b: B)
    ensures
        cycles_and_pc_ok(c, b),
{
    let op = b.bus_read(c.pc);
    if op <= 0x3f {
        lemma_cycles_low(c, b);
    } else if op <= 0xbf {
        lemma_cycles_mid(c, b);
    } else {
        lemma_cycles_high(c, b);
    }
}

/// Encoding the flags and decoding the byte are mutually inverse on the
/// meaningful high nibble: decoding undoes encoding exactly, and encoding
/// a decoded byte keeps its high nibble and clears its low nibble.
pub proof fn lemma_flags_round_trip(f: Flags, v: u8)
    ensures
        flags_from_byte(flags_to_byte(f)) == f,
        flags_to_byte(flags_from_byte(v)) == v & 0xf0,
{
    let z = f.z;
    let n = f.n;
    let h = f.h;
    let c = f.c;
    let b = flags_to_byte(f);
    assert((b & 0x80 != 0) == z && (b & 0x40 != 0) == n && (b & 0x20 != 0) == h && (b & 0x10 != 0)
        == c) by (bit_vector)
        requires
            b == (if c { 0x10u8 } else { 0u8 }) | (if h { 0x20u8 } else { 0u8 })
                | (if n { 0x40u8 } else { 0u8 }) | (if z { 0x80u8 } else { 0u8 }),
    ;
    assert(flags_to_byte(flags_from_byte(v)) == v & 0xf0) by (bit_vector);
}

/// Stack round trip: pushing a halfword and immediately popping it reads
/// the same halfword back and leaves the stack pointer where it began, for
/// every value and every starting stack pointer.  The pop reads the low
/// byte at the lowered stack pointer and the high byte one above, then
/// raises the pointer by two.
pub proof fn lemma_stack_round_trip(m: MockInterconnect, m2: MockInterconnect, sp: u16, v: u16)
    requires
        m.wf(),
        spec_push(m, sp, v, m2),
    ensures
        w_add(w_sub(sp, 2), 2) == sp,
        hw(m2.bus_read(w_add(w_sub(sp, 2), 1)), m2.bus_read(w_sub(sp, 2))) == v,
{
    let m1 = choose|m1: MockInterconnect|
        #[trigger] m.bus_write(w_sub(sp, 1), hi8(v), &m1) && m1.bus_write(w_sub(sp, 2), lo8(v), &m2);
    lemma_hw_recompose(v);
    assert(w_add(w_sub(sp, 2), 1) == w_sub(sp, 1));
    assert(m2@[w_sub(sp, 2) as int] == lo8(v));
    assert(m2@[w_sub(sp, 1) as int] == hi8(v));
}

/// Bus contention during a transfer: a processor read at an address on
/// the same physical segment as the byte the transfer is fetching returns
/// the transfer's latched byte, not the addressed memory.
pub proof fn lemma_dma_contention(i: Interconnect, addr: u16, k: u16)
    requires
        i.dma_state == DmaState::Active(k),
        same_bus_segment(addr, w_add(i.dma_source, w_add(k, 1))),
    ensures
        spec_read(i, addr) == i.dma_slot,
{
}

/// Restart detour: a trigger write during an active transfer moves the
/// machine to the first reset phase, and the next two micro-cycles pass
/// through the second reset phase before the transfer restarts at index
/// zero — never directly from one active index to another.
pub proof fn lemma_dma_restart(i: Interconnect, post: Interconnect, k: u16, val: u8)
    requires
        i.dma_state == DmaState::Active(k),
        spec_write(i, 0xff46, val, post),
    ensures
        post.dma_state == DmaState::Reset1,
        ({
            let r1 = spec_dma_tick(post, DmaState::Reset1, post.dma_slot, post.gpu.oam@);
            let r2 = spec_dma_tick(post, r1.0, r1.1, r1.2);
            r1.0 == DmaState::Reset2 && r2.0 == DmaState::Active(0)
        }),
{
}

/// Outside the object table's own window, the plain decode does not depend
/// on the transfer phase or on what the transfer has written to the table,
/// so the bytes the transfer fetches are the bytes of the starting state.
proof fn lemma_dma_source_read(i: Interconnect, st: DmaState, oam: Seq<u8>, a: u16)
    requires
        !(0xfe00 <= a && a <= 0xfe9f),
    ensures
        crate::interconnect::spec_inner_read_d(i, st, oam, a) == spec_inner_read(i, a),
{
}

/// The active phase of a transfer whose source window stays clear of the
/// object table: starting at index `k` with the byte for `k` already
/// latched and the earlier bytes already delivered, the remaining
/// micro-cycles deliver the rest and end the transfer.
proof fn lemma_dma_active_run(i: Interconnect, slot: u8, oam: Seq<u8>, k: u16)
    requires
        ic_wf(i),
        k <= 159,
        oam.len() == 0xa0,
        i.dma_source + 160 < 0xfe00,
        slot == spec_inner_read(i, (i.dma_source + k) as u16),
        forall|j: int| 0 <= j < k ==> oam[j] == spec_inner_read(i, (i.dma_source + j) as u16),
    ensures
        ({
            let r = spec_dma_ticks(i, DmaState::Active(k), slot, oam, (160 - k) as nat);
            &&& r.0 == DmaState::Inactive
            &&& r.2.len() == 0xa0
            &&& forall|j: int| 0 <= j < 160 ==> r.2[j] == spec_inner_read(
                i,
                (i.dma_source + j) as u16,
            )
        }),
    decreases 160 - k,
{
    let src = i.dma_source;
    let fetched = w_add(src, w_add(k, 1));
    assert(fetched == src + k + 1);
    let oam2 = oam.update(k as int, slot);
    if k == 159 {
        let r1 = spec_dma_tick(i, DmaState::Active(k), slot, oam);
        assert(r1.0 == DmaState::Inactive && r1.2 == oam2);
        assert(spec_dma_ticks(i, DmaState::Active(k), slot, oam, 1) == spec_dma_ticks(
            i,
            r1.0,
            r1.1,
            r1.2,
            0,
        ));
    } else {
        lemma_dma_source_read(i, DmaState::Active(k), oam, fetched);
        let slot2 = spec_inner_read(i, (src + k + 1) as u16);
        lemma_dma_active_run(i, slot2, oam2, (k + 1) as u16);
        assert(spec_dma_ticks(i, DmaState::Active(k), slot, oam, (160 - k) as nat)
            == spec_dma_ticks(
            i,
            DmaState::Active((k + 1) as u16),
            slot2,
            oam2,
            (160 - (k + 1)) as nat,
        ));
    }
}

/// Transfer completeness: from the first setup phase, with a source window
/// clear of the object table itself, exactly 160 x 4 + 8 cycles' worth of
/// micro-cycles copy all 160 bytes that stood at the source into the object
/// table verbatim and leave the machine idle again.
pub proof fn lemma_dma_completeness(i: Interconnect)
    requires
        ic_wf(i),
        i.dma_state == DmaState::Setup1,
        i.dma_source + 160 < 0xfe00,
    ensures
        ({
            let r = spec_dma_ticks(i, i.dma_state, i.dma_slot, i.gpu.oam@, 162);
            &&& r.0 == DmaState::Inactive
            &&& r.2.len() == 0xa0
            &&& forall|j: int| 0 <= j < 160 ==> r.2[j] == spec_inner_read(
                i,
                (i.dma_source + j) as u16,
            )
        }),
{
    let oam = i.gpu.oam@;
    lemma_dma_source_read(i, DmaState::Setup2, oam, i.dma_source);
    let slot0 = spec_inner_read(i, i.dma_source);
    assert(spec_dma_ticks(i, DmaState::Setup1, i.dma_slot, oam, 162) == spec_dma_ticks(
        i,
        DmaState::Setup2,
        i.dma_slot,
        oam,
        161,
    ));
    assert(spec_dma_ticks(i, DmaState::Setup2, i.dma_slot, oam, 161) == spec_dma_ticks(
        i,
        DmaState::Active(0),
        slot0,
        oam,
        160,
    ));
    assert(i.dma_source + 0 == i.dma_source);
    lemma_dma_active_run(i, slot0, oam, 0);
}

} // verus!
