//! Bus operations: the wire-level actions the protocol engine asks of the
//! bus/pin layer, and the spec-level vocabulary for sequences of them.

use vstd::prelude::*;

use crate::command::Command;

verus! {

/// One action on the serial bus or on a control line.
///
/// Every driver operation returns a sequence of these; an unverified bus
/// layer performs them in order. A bus transaction is an opcode byte sent
/// with the data/command line at command level (`Command`), followed by zero
/// or more payload bytes sent at data level (`DataByte`).
#[derive(Clone, Copy, Debug, PartialEq, Eq, Structural)]
pub enum BusOp {
    /// Transmit an opcode byte with the data/command line at command level.
    Command(u8),
    /// Transmit one payload byte with the data/command line at data level.
    DataByte(u8),
    /// Pulse the reset line: assert it for the first number of microseconds,
    /// then give the panel the second number of microseconds to settle.
    Reset(u32, u32),
    /// Block for the given number of milliseconds.
    DelayMs(u32),
    /// Poll the busy line until the panel reports idle, sleeping a small
    /// fixed interval between polls. The flag is the busy polarity: `true`
    /// means the panel is busy while the line reads low, `false` that it is
    /// busy while the line reads high.
    WaitUntilIdle(bool),
}

/// The payload ops that transmit the given bytes in order.
pub open spec fn data_ops(bytes: Seq<u8>) -> Seq<BusOp> {
    Seq::new(bytes.len(), |i: int| BusOp::DataByte(bytes[i]))
}

/// `count` copies of one byte value.
pub open spec fn repeat_byte(b: u8, count: nat) -> Seq<u8> {
    Seq::new(count, |i: int| b)
}

/// Every byte bitwise-complemented.
pub open spec fn complement(bytes: Seq<u8>) -> Seq<u8> {
    Seq::new(bytes.len(), |i: int| !bytes[i])
}

/// One full plane transmission: the plane's opcode, then its payload bytes.
pub open spec fn plane_ops(opcode: u8, bytes: Seq<u8>) -> Seq<BusOp> {
    seq![BusOp::Command(opcode)] + data_ops(bytes)
}

/// The opcode bytes a sequence of bus operations issues, in order.
pub open spec fn opcodes_of(ops: Seq<BusOp>) -> Seq<u8>
    decreases ops.len(),
{
    if ops.len() == 0 {
        Seq::empty()
    } else {
        (match ops[0] {
            BusOp::Command(c) => seq![c],
            _ => Seq::empty(),
        }) + opcodes_of(ops.skip(1))
    }
}

/// The opcode projection distributes over concatenation.
pub proof fn lemma_opcodes_of_add(a: Seq<BusOp>, b: Seq<BusOp>)
    ensures
        opcodes_of(a + b) == opcodes_of(a) + opcodes_of(b),
    decreases a.len(),
{
    if a.len() == 0 {
        assert(a + b =~= b);
        assert(opcodes_of(a) + opcodes_of(b) =~= opcodes_of(b));
    } else {
        assert((a + b)[0] == a[0]);
        assert((a + b).skip(1) =~= a.skip(1) + b);
        lemma_opcodes_of_add(a.skip(1), b);
        assert(opcodes_of(a + b) =~= opcodes_of(a) + opcodes_of(b));
    }
}

/// Payload bytes issue no opcodes.
pub proof fn lemma_opcodes_of_data(bytes: Seq<u8>)
    ensures
        opcodes_of(data_ops(bytes)) == Seq::<u8>::empty(),
    decreases bytes.len(),
{
    if bytes.len() == 0 {
        assert(data_ops(bytes) =~= Seq::<BusOp>::empty());
    } else {
        assert(data_ops(bytes).skip(1) =~= data_ops(bytes.skip(1)));
        lemma_opcodes_of_data(bytes.skip(1));
        assert(opcodes_of(data_ops(bytes)) =~= Seq::<u8>::empty());
    }
}

/// The opcode projection of a single operation.
pub proof fn lemma_opcodes_of_single(op: BusOp)
    ensures
        opcodes_of(seq![op]) == (match op {
            BusOp::Command(c) => seq![c],
            _ => Seq::<u8>::empty(),
        }),
{
    reveal_with_fuel(opcodes_of, 2);
    assert(seq![op].skip(1) =~= Seq::<BusOp>::empty());
    assert(opcodes_of(seq![op]) =~= (match op {
        BusOp::Command(c) => seq![c],
        _ => Seq::<u8>::empty(),
    }));
}

/// Peeling one operation off the front of a sequence peels its opcode
/// projection.
pub proof fn lemma_opcodes_of_cons(op: BusOp, rest: Seq<BusOp>)
    ensures
        opcodes_of(seq![op] + rest) == (match op {
            BusOp::Command(c) => seq![c],
            _ => Seq::<u8>::empty(),
        }) + opcodes_of(rest),
{
    lemma_opcodes_of_add(seq![op], rest);
    lemma_opcodes_of_single(op);
}

/// A plane transmission issues exactly its plane opcode.
pub proof fn lemma_opcodes_of_plane(opcode: u8, bytes: Seq<u8>)
    ensures
        opcodes_of(plane_ops(opcode, bytes)) == seq![opcode],
{
    lemma_opcodes_of_add(seq![BusOp::Command(opcode)], data_ops(bytes));
    lemma_opcodes_of_single(BusOp::Command(opcode));
    lemma_opcodes_of_data(bytes);
    assert(opcodes_of(plane_ops(opcode, bytes)) =~= seq![opcode]);
}

/// Appends the opcode transaction for `c`.
pub fn push_command(ops: &mut Vec<BusOp>, c: Command)
    ensures
        final(ops)@ == old(ops)@.push(BusOp::Command(c.spec_address())),
{
    let a = c.address();
    ops.push(BusOp::Command(a));
}

/// Appends the payload ops that transmit `bytes` verbatim.
pub fn push_data(ops: &mut Vec<BusOp>, bytes: &[u8])
    ensures
        final(ops)@ == old(ops)@ + data_ops(bytes@),
{
    let ghost base = ops@;
    let mut i: usize = 0;
    while i < bytes.len()
        invariant
            i <= bytes@.len(),
            ops@ == base + data_ops(bytes@.take(i as int)),
        decreases bytes@.len() - i,
    {
        let b = bytes[i];
        ops.push(BusOp::DataByte(b));
        i = i + 1;
        proof {
            assert(ops@ =~= base + data_ops(bytes@.take(i as int)));
        }
    }
    proof {
        assert(bytes@.take(bytes@.len() as int) =~= bytes@);
    }
}

/// Appends the payload ops that transmit every byte of `bytes`
/// bitwise-complemented.
pub fn push_data_complemented(ops: &mut Vec<BusOp>, bytes: &[u8])
    ensures
        final(ops)@ == old(ops)@ + data_ops(complement(bytes@)),
{
    let ghost base = ops@;
    let mut i: usize = 0;
    while i < bytes.len()
        invariant
            i <= bytes@.len(),
            ops@ == base + data_ops(complement(bytes@).take(i as int)),
        decreases bytes@.len() - i,
    {
        let b = bytes[i];
        ops.push(BusOp::DataByte(!b));
        i = i + 1;
        proof {
            assert(ops@ =~= base + data_ops(complement(bytes@).take(i as int)));
        }
    }
    proof {
        assert(complement(bytes@).take(bytes@.len() as int) =~= complement(bytes@));
    }
}

/// Appends `count` copies of one payload byte.
pub fn push_data_repeated(ops: &mut Vec<BusOp>, b: u8, count: usize)
    ensures
        final(ops)@ == old(ops)@ + data_ops(repeat_byte(b, count as nat)),
{
    let ghost base = ops@;
    let mut i: usize = 0;
    while i < count
        invariant
            i <= count,
            ops@ == base + data_ops(repeat_byte(b, i as nat)),
        decreases count - i,
    {
        ops.push(BusOp::DataByte(b));
        i = i + 1;
        proof {
            assert(ops@ =~= base + data_ops(repeat_byte(b, i as nat)));
        }
    }
}

} // verus!
