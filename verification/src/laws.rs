//! Laws of the protocol engine: properties that relate several operations or
//! hold of every input, stated over the spec-level op tables and proved once.

use vstd::prelude::*;

use crate::BUFFER_SIZE;
use crate::bus::BusOp;
use crate::bus::complement;
use crate::bus::data_ops;
use crate::bus::lemma_opcodes_of_add;
use crate::bus::lemma_opcodes_of_cons;
use crate::bus::lemma_opcodes_of_plane;
use crate::bus::lemma_opcodes_of_single;
use crate::bus::opcodes_of;
use crate::bus::plane_ops;
use crate::bus::repeat_byte;
use crate::revision::black_plane_opcode;
use crate::revision::chromatic_plane_opcode;
use crate::revision::clear_ops;
use crate::revision::color_frame_ops;
use crate::revision::refresh_ops;
use crate::revision::sleep_ops;
use crate::revision::wait_idle_op;

verus! {

/// For every valid buffer pair, the frame transmission carries the black
/// plane byte-for-byte and the chromatic plane with every byte
/// bitwise-complemented, under either revision: the black payload occupies
/// the operations right after the black-plane opcode, the complemented
/// chromatic payload those after the chromatic-plane opcode.
pub proof fn lemma_color_frame_transmission(flag: u8, black: Seq<u8>, chromatic: Seq<u8>)
    requires
        black.len() == BUFFER_SIZE,
        chromatic.len() == BUFFER_SIZE,
    ensures
        color_frame_ops(flag, black, chromatic).len() == 3 + 2 * BUFFER_SIZE,
        color_frame_ops(flag, black, chromatic).subrange(2, 2 + BUFFER_SIZE as int) == data_ops(
            black,
        ),
        color_frame_ops(flag, black, chromatic).subrange(
            3 + BUFFER_SIZE as int,
            3 + 2 * BUFFER_SIZE as int,
        ) == data_ops(complement(chromatic)),
{
    let s = color_frame_ops(flag, black, chromatic);
    assert(s.subrange(2, 2 + BUFFER_SIZE as int) =~= data_ops(black));
    assert(s.subrange(3 + BUFFER_SIZE as int, 3 + 2 * BUFFER_SIZE as int) =~= data_ops(
        complement(chromatic),
    ));
}

/// Clearing the frame issues exactly the revision's two plane opcodes:
/// `0x10` then `0x13` under the first revision, `0x24` then `0x26` under
/// the second.
pub proof fn lemma_clear_frame_opcodes()
    ensures
        opcodes_of(clear_ops(0)) == seq![0x10u8, 0x13u8],
        opcodes_of(clear_ops(1)) == seq![0x24u8, 0x26u8],
{
    lemma_clear_opcodes_for(0);
    lemma_clear_opcodes_for(1);
    assert(opcodes_of(clear_ops(0)) =~= seq![0x10u8, 0x13u8]);
    assert(opcodes_of(clear_ops(1)) =~= seq![0x24u8, 0x26u8]);
}

/// Under either revision, clearing the frame issues the revision's
/// black-plane opcode and then its chromatic-plane opcode, nothing else.
proof fn lemma_clear_opcodes_for(flag: u8)
    ensures
        opcodes_of(clear_ops(flag)) == seq![
            black_plane_opcode(flag),
            chromatic_plane_opcode(flag),
        ],
{
    let wait = seq![wait_idle_op(flag)];
    let black = plane_ops(black_plane_opcode(flag), repeat_byte(0xFF, BUFFER_SIZE as nat));
    let chromatic = plane_ops(chromatic_plane_opcode(flag), repeat_byte(0x00, BUFFER_SIZE as nat));
    assert(clear_ops(flag) == wait + black + chromatic);
    lemma_opcodes_of_add(wait + black, chromatic);
    lemma_opcodes_of_add(wait, black);
    lemma_opcodes_of_single(wait_idle_op(flag));
    lemma_opcodes_of_plane(black_plane_opcode(flag), repeat_byte(0xFF, BUFFER_SIZE as nat));
    lemma_opcodes_of_plane(chromatic_plane_opcode(flag), repeat_byte(0x00, BUFFER_SIZE as nat));
    assert(opcodes_of(clear_ops(flag)) =~= seq![
        black_plane_opcode(flag),
        chromatic_plane_opcode(flag),
    ]);
}

/// The sleep sequence issues exactly the VCOM/data-interval setting, power
/// off and deep sleep opcodes under the first revision, and exactly the
/// first data-transmission opcode under the second. (The payloads — `0xF7`,
/// `0xA5` and `0x03` — are pinned down by `sleep_ops` itself.)
pub proof fn lemma_sleep_opcodes()
    ensures
        opcodes_of(sleep_ops(0)) == seq![0x50u8, 0x02u8, 0x07u8],
        opcodes_of(sleep_ops(1)) == seq![0x10u8],
{
    let t6 = seq![BusOp::DelayMs(2000)];
    let t5 = seq![BusOp::DataByte(0xA5)] + t6;
    let t4 = seq![BusOp::Command(0x07)] + t5;
    let t3 = seq![BusOp::WaitUntilIdle(true)] + t4;
    let t2 = seq![BusOp::Command(0x02)] + t3;
    let t1 = seq![BusOp::DataByte(0xF7)] + t2;
    let t0 = seq![BusOp::Command(0x50)] + t1;
    assert(sleep_ops(0) =~= t0);
    lemma_opcodes_of_cons(BusOp::Command(0x50), t1);
    lemma_opcodes_of_cons(BusOp::DataByte(0xF7), t2);
    lemma_opcodes_of_cons(BusOp::Command(0x02), t3);
    lemma_opcodes_of_cons(BusOp::WaitUntilIdle(true), t4);
    lemma_opcodes_of_cons(BusOp::Command(0x07), t5);
    lemma_opcodes_of_cons(BusOp::DataByte(0xA5), t6);
    lemma_opcodes_of_single(BusOp::DelayMs(2000));
    assert(opcodes_of(sleep_ops(0)) =~= seq![0x50u8, 0x02u8, 0x07u8]);

    let u1 = seq![BusOp::DataByte(0x03)] + seq![BusOp::DelayMs(2000)];
    assert(sleep_ops(1) =~= seq![BusOp::Command(0x10)] + u1);
    lemma_opcodes_of_cons(BusOp::Command(0x10), u1);
    lemma_opcodes_of_cons(BusOp::DataByte(0x03), seq![BusOp::DelayMs(2000)]);
    lemma_opcodes_of_single(BusOp::DelayMs(2000));
    assert(opcodes_of(sleep_ops(1)) =~= seq![0x10u8]);
}

/// The refresh sequence issues exactly the display-refresh opcode under the
/// first revision, and the display-update-control and master-activation
/// opcodes under the second.
pub proof fn lemma_display_frame_opcodes()
    ensures
        opcodes_of(refresh_ops(0)) == seq![0x12u8],
        opcodes_of(refresh_ops(1)) == seq![0x22u8, 0x20u8],
{
    let t2 = seq![BusOp::WaitUntilIdle(true)];
    let t1 = seq![BusOp::DelayMs(100)] + t2;
    assert(refresh_ops(0) =~= seq![BusOp::Command(0x12)] + t1);
    lemma_opcodes_of_cons(BusOp::Command(0x12), t1);
    lemma_opcodes_of_cons(BusOp::DelayMs(100), t2);
    lemma_opcodes_of_single(BusOp::WaitUntilIdle(true));
    assert(opcodes_of(refresh_ops(0)) =~= seq![0x12u8]);

    let u3 = seq![BusOp::WaitUntilIdle(false)];
    let u2 = seq![BusOp::Command(0x20)] + u3;
    let u1 = seq![BusOp::DataByte(0xF7)] + u2;
    assert(refresh_ops(1) =~= seq![BusOp::Command(0x22)] + u1);
    lemma_opcodes_of_cons(BusOp::Command(0x22), u1);
    lemma_opcodes_of_cons(BusOp::DataByte(0xF7), u2);
    lemma_opcodes_of_cons(BusOp::Command(0x20), u3);
    lemma_opcodes_of_single(BusOp::WaitUntilIdle(false));
    assert(opcodes_of(refresh_ops(1)) =~= seq![0x22u8, 0x20u8]);
}

/// A whole default-revision session — clear the frame, refresh, sleep —
/// gives exactly the documented wire trace: `0x10` with a plane of `0xFF`,
/// `0x13` with a plane of `0x00`, the refresh opcode `0x12`, then the sleep
/// recipe `0x50(0xF7)`, `0x02`, `0x07(0xA5)`, interleaved with the
/// documented idle-waits and delays.
pub proof fn lemma_default_session_trace()
    ensures
        clear_ops(0) + refresh_ops(0) + sleep_ops(0) == seq![
            BusOp::WaitUntilIdle(true),
            BusOp::Command(0x10),
        ] + data_ops(repeat_byte(0xFF, BUFFER_SIZE as nat)) + seq![BusOp::Command(0x13)]
            + data_ops(repeat_byte(0x00, BUFFER_SIZE as nat)) + seq![
            BusOp::Command(0x12),
            BusOp::DelayMs(100),
            BusOp::WaitUntilIdle(true),
            BusOp::Command(0x50),
            BusOp::DataByte(0xF7),
            BusOp::Command(0x02),
            BusOp::WaitUntilIdle(true),
            BusOp::Command(0x07),
            BusOp::DataByte(0xA5),
            BusOp::DelayMs(2000),
        ],
        opcodes_of(clear_ops(0) + refresh_ops(0) + sleep_ops(0)) == seq![
            0x10u8,
            0x13u8,
            0x12u8,
            0x50u8,
            0x02u8,
            0x07u8,
        ],
{
    assert(clear_ops(0) + refresh_ops(0) + sleep_ops(0) =~= seq![
        BusOp::WaitUntilIdle(true),
        BusOp::Command(0x10),
    ] + data_ops(repeat_byte(0xFF, BUFFER_SIZE as nat)) + seq![BusOp::Command(0x13)] + data_ops(
        repeat_byte(0x00, BUFFER_SIZE as nat),
    ) + seq![
        BusOp::Command(0x12),
        BusOp::DelayMs(100),
        BusOp::WaitUntilIdle(true),
        BusOp::Command(0x50),
        BusOp::DataByte(0xF7),
        BusOp::Command(0x02),
        BusOp::WaitUntilIdle(true),
        BusOp::Command(0x07),
        BusOp::DataByte(0xA5),
        BusOp::DelayMs(2000),
    ]);
    lemma_opcodes_of_add(clear_ops(0) + refresh_ops(0), sleep_ops(0));
    lemma_opcodes_of_add(clear_ops(0), refresh_ops(0));
    lemma_clear_opcodes_for(0);
    lemma_display_frame_opcodes();
    lemma_sleep_opcodes();
    assert(opcodes_of(clear_ops(0) + refresh_ops(0) + sleep_ops(0)) =~= seq![
        0x10u8,
        0x13u8,
        0x12u8,
        0x50u8,
        0x02u8,
        0x07u8,
    ]);
}

} // verus!
