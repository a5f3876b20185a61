//! Encoding of the light state as a Kuando Busylight HID output report.
//!
//! The report is a 0x00 report-ID prefix followed by a 64-byte payload:
//! seven 8-byte steps and an 8-byte footer. A step is
//! `[opcode_target, repeat, r, g, b, on_time, off_time, flags]`, where the
//! opcode sits in the high nibble of the first byte and the target step in
//! the low nibble. The footer holds sensitivity, timeout and trigger bytes
//! (zero), the pad field `00 0F FF` and a big-endian 16-bit checksum: the
//! sum of the 62 payload bytes before it.

use crate::device::LightState;
use vstd::prelude::*;

verus! {

pub const NUM_STEPS: usize = 7;

pub const STEP_SIZE: usize = 8;

/// Payload length: seven steps and the footer.
pub const PAYLOAD_SIZE: usize = 64;

/// Report length: report-ID byte and payload.
pub const WRITE_SIZE: usize = 65;

/// Offset of the footer within the payload.
pub const FOOTER_BASE: usize = 56;

/// Jump opcode (0x1 in the high nibble), target step 0.
pub const OPCODE_JUMP: u8 = 0x10;

/// The three pad bytes of the footer.
pub const FOOTER_PAD_0: u8 = 0x00;

pub const FOOTER_PAD_1: u8 = 0x0F;

pub const FOOTER_PAD_2: u8 = 0xFF;

// ---------------------------------------------------------------------------
// Specification
// ---------------------------------------------------------------------------

/// A colour channel on the device's 0-100 scale.
pub open spec fn spec_scale(c: u8) -> u8 {
    ((c as int * 100) / 255) as u8
}

/// A duration in 100 ms ticks, clamped to 1..=255.
pub open spec fn spec_ticks(ms: u16) -> u8 {
    let t = ms as int / 100;
    if t < 1 {
        1
    } else if t > 255 {
        255
    } else {
        t as u8
    }
}

/// One 8-byte step; its flags byte is always zero.
pub open spec fn step_bytes(
    opcode_target: u8,
    repeat: u8,
    r: u8,
    g: u8,
    b: u8,
    on_time: u8,
    off_time: u8,
) -> Seq<u8> {
    seq![opcode_target, repeat, r, g, b, on_time, off_time, 0u8]
}

pub open spec fn zero_bytes(n: nat) -> Seq<u8> {
    Seq::new(n, |_i: int| 0u8)
}

/// The secondary colour counts only if one of its channels is non-zero.
pub open spec fn has_second_colour(s: LightState) -> bool {
    crate::device::or_default(s.r2, 0u8) > 0 || crate::device::or_default(s.g2, 0u8) > 0
        || crate::device::or_default(s.b2, 0u8) > 0
}

/// Step 0 of a blink program for `s`. With a secondary colour it shows
/// the primary colour for the "on" time, once, and jumps to step 1; without
/// one it loops on itself with the on/off duty cycle.
pub open spec fn blink_first_step(s: LightState) -> Seq<u8> {
    if has_second_colour(s) {
        step_bytes(
            OPCODE_JUMP | 1,
            1,
            spec_scale(s.r),
            spec_scale(s.g),
            spec_scale(s.b),
            spec_ticks(s.spec_on_ms()),
            0,
        )
    } else {
        step_bytes(
            OPCODE_JUMP,
            0,
            spec_scale(s.r),
            spec_scale(s.g),
            spec_scale(s.b),
            spec_ticks(s.spec_on_ms()),
            spec_ticks(s.spec_off_ms()),
        )
    }
}

/// Step 1 of a two-colour blink program: the secondary colour for the
/// "off" time, once, then back to step 0.
pub open spec fn blink_second_step(s: LightState) -> Seq<u8> {
    step_bytes(
        OPCODE_JUMP,
        1,
        spec_scale(crate::device::or_default(s.r2, 0u8)),
        spec_scale(crate::device::or_default(s.g2, 0u8)),
        spec_scale(crate::device::or_default(s.b2, 0u8)),
        spec_ticks(s.spec_off_ms()),
        0,
    )
}

/// Step 0 of the program for `s`.
pub open spec fn first_step(s: LightState) -> Seq<u8> {
    if !s.on {
        // Off: jump with black so that the device acknowledges the command.
        step_bytes(OPCODE_JUMP, 0, 0, 0, 0, 0, 0)
    } else if !s.blink {
        step_bytes(OPCODE_JUMP, 0, spec_scale(s.r), spec_scale(s.g), spec_scale(s.b), 0, 0)
    } else {
        blink_first_step(s)
    }
}

/// Step 1 of the program for `s`: the secondary colour of a two-colour
/// blink, and zero otherwise.
pub open spec fn second_step(s: LightState) -> Seq<u8> {
    if s.on && s.blink && has_second_colour(s) {
        blink_second_step(s)
    } else {
        zero_bytes(8)
    }
}

/// The first six footer bytes: sensitivity, timeout, trigger and the pad.
pub open spec fn footer_head() -> Seq<u8> {
    seq![0u8, 0u8, 0u8, FOOTER_PAD_0, FOOTER_PAD_1, FOOTER_PAD_2]
}

/// The 62 payload bytes that the checksum covers.
pub open spec fn checked_bytes(s: LightState) -> Seq<u8> {
    first_step(s) + second_step(s) + zero_bytes(40) + footer_head()
}

/// The sum of a byte sequence.
pub open spec fn byte_sum(bytes: Seq<u8>) -> nat
    decreases bytes.len(),
{
    if bytes.len() == 0 {
        0
    } else {
        byte_sum(bytes.drop_last()) + bytes.last() as nat
    }
}

/// The 64-byte payload: the checked bytes, then their sum, big-endian.
pub open spec fn payload_bytes(s: LightState) -> Seq<u8> {
    let sum = byte_sum(checked_bytes(s));
    checked_bytes(s) + seq![(sum / 256) as u8, (sum % 256) as u8]
}

/// The whole report: the report-ID byte 0x00, then the payload.
pub open spec fn report_bytes(s: LightState) -> Seq<u8> {
    seq![0u8] + payload_bytes(s)
}

// ---------------------------------------------------------------------------
// Encoding
// ---------------------------------------------------------------------------

/// Maps a 0-255 colour value onto the device's 0-100 scale, rounding down.
pub fn scale(c: u8) -> (v: u8)
    ensures
        v == spec_scale(c),
        v as int == c as int * 100 / 255,
        v <= 100,
{
    ((c as u16 * 100) / 255) as u8
}

/// Converts a duration into 100 ms ticks, clamped to at least 1 (so that a
/// blink is always visible) and at most 255.
pub fn ticks(ms: u16) -> (t: u8)
    ensures
        t == spec_ticks(ms),
        ms < 100 ==> t == 1,
        100 <= ms < 25600 ==> t as int == ms as int / 100,
        ms >= 25600 ==> t == 255,
{
    let t: u16 = ms / 100;
    if t < 1 {
        1
    } else if t > 255 {
        255
    } else {
        t as u8
    }
}

/// Writes step `step` of the program into the payload of `buf`, which
/// starts after the report-ID byte. Slots 0 to 6 are the steps; slot 7 is
/// where the footer lies.
#[allow(clippy::too_many_arguments)]
fn write_step(
    buf: &mut [u8; WRITE_SIZE],
    step: usize,
    opcode_target: u8,
    repeat: u8,
    r: u8,
    g: u8,
    b: u8,
    on_time: u8,
    off_time: u8,
)
    requires
        step <= NUM_STEPS,
    ensures
        final(buf)@.len() == WRITE_SIZE,
        final(buf)@.subrange(1 + step * 8, 9 + step * 8) == step_bytes(
            opcode_target,
            repeat,
            r,
            g,
            b,
            on_time,
            off_time,
        ),
        forall|j: int|
            0 <= j < WRITE_SIZE && !(1 + step * 8 <= j < 9 + step * 8) ==> final(buf)@[j] == old(
                buf,
            )@[j],
{
    let base: usize = 1 + step * STEP_SIZE;
    buf[base] = opcode_target;
    buf[base + 1] = repeat;
    buf[base + 2] = r;
    buf[base + 3] = g;
    buf[base + 4] = b;
    buf[base + 5] = on_time;
    buf[base + 6] = off_time;
    buf[base + 7] = 0;  // flags: update=0, ringtone=0, volume=0
    assert(buf@.subrange(base as int, base + 8) =~= step_bytes(
        opcode_target,
        repeat,
        r,
        g,
        b,
        on_time,
        off_time,
    ));
}

/// Writes the blink program for `state` into step 0 and, for two colours,
/// step 1. With one colour, step 1 is left as it was.
fn build_blink(buf: &mut [u8; WRITE_SIZE], state: &LightState)
    ensures
        final(buf)@.len() == WRITE_SIZE,
        final(buf)@.subrange(1, 9) == blink_first_step(*state),
        has_second_colour(*state) ==> final(buf)@.subrange(9, 17) == blink_second_step(*state),
        !has_second_colour(*state) ==> forall|j: int|
            9 <= j < 17 ==> final(buf)@[j] == old(buf)@[j],
        forall|j: int| 17 <= j < WRITE_SIZE ==> final(buf)@[j] == old(buf)@[j],
        final(buf)@[0] == old(buf)@[0],
{
    let on_ticks = ticks(state.effective_blink_on_ms());
    let off_ticks = ticks(state.effective_blink_off_ms());
    let r2 = match state.r2 {
        Some(v) => v,
        None => 0,
    };
    let g2 = match state.g2 {
        Some(v) => v,
        None => 0,
    };
    let b2 = match state.b2 {
        Some(v) => v,
        None => 0,
    };

    if r2 > 0 || g2 > 0 || b2 > 0 {
        // Two colours: step 0 plays once then jumps to step 1, which loops
        // back to step 0.
        write_step(
            buf,
            0,
            OPCODE_JUMP | 1,
            1,
            scale(state.r),
            scale(state.g),
            scale(state.b),
            on_ticks,
            0,
        );
        let ghost mid = buf@;
        write_step(buf, 1, OPCODE_JUMP, 1, scale(r2), scale(g2), scale(b2), off_ticks, 0);
        assert(buf@.subrange(1, 9) =~= mid.subrange(1, 9));
    } else {
        // One colour: step 0 loops with an on/off duty cycle.
        write_step(
            buf,
            0,
            OPCODE_JUMP,
            0,
            scale(state.r),
            scale(state.g),
            scale(state.b),
            on_ticks,
            off_ticks,
        );
    }
}

/// Builds the 65-byte HID output report for `state`: the report-ID byte
/// 0x00, the step program, the footer and its checksum.
pub fn build_report(state: &LightState) -> (buf: [u8; WRITE_SIZE])
    ensures
        buf@ == report_bytes(*state),
        buf@[0] == 0,
        !state.on ==> buf@[1] == 0x10 && forall|j: int| 2 <= j < 17 ==> buf@[j] == 0,
        state.on && !state.blink ==> {
            &&& buf@[1] == 0x10
            &&& buf@[2] == 0
            &&& buf@[3] as int == state.r as int * 100 / 255
            &&& buf@[4] as int == state.g as int * 100 / 255
            &&& buf@[5] as int == state.b as int * 100 / 255
            &&& forall|j: int| 6 <= j < 17 ==> buf@[j] == 0
        },
        forall|j: int| 17 <= j < 57 ==> buf@[j] == 0,
        buf@[63] as int * 256 + buf@[64] as int == byte_sum(buf@.subrange(1, 63)),
{
    let mut buf = [0u8; WRITE_SIZE];

    // Footer: sensitivity=0, timeout=0, trigger=0, pad=0x000FFF. The
    // payload starts at buf[1].
    buf[1 + FOOTER_BASE + 3] = FOOTER_PAD_0;
    buf[1 + FOOTER_BASE + 4] = FOOTER_PAD_1;
    buf[1 + FOOTER_BASE + 5] = FOOTER_PAD_2;
    assert(buf@.subrange(9, 17) =~= zero_bytes(8));

    if state.on {
        if state.blink {
            let ghost before = buf@;
            build_blink(&mut buf, state);
            assert(buf@.subrange(9, 17) =~= second_step(*state)) by {
                if !has_second_colour(*state) {
                    assert(buf@.subrange(9, 17) =~= before.subrange(9, 17));
                }
            }
        } else {
            let ghost before = buf@;
            write_step(
                &mut buf,
                0,
                OPCODE_JUMP,
                0,
                scale(state.r),
                scale(state.g),
                scale(state.b),
                0,
                0,
            );
            assert(buf@.subrange(9, 17) =~= before.subrange(9, 17));
        }
    } else {
        // Off: jump with black so that the device acknowledges the command.
        let ghost before = buf@;
        write_step(&mut buf, 0, OPCODE_JUMP, 0, 0, 0, 0, 0, 0);
        assert(buf@.subrange(9, 17) =~= before.subrange(9, 17));
    }
    assert(buf@.subrange(1, 63) =~= checked_bytes(*state));

    let mut checksum: u16 = 0;
    let mut i: usize = 1;
    while i < 1 + FOOTER_BASE + 6
        invariant
            1 <= i <= 63,
            buf@.len() == WRITE_SIZE,
            checksum == byte_sum(buf@.subrange(1, i as int)),
            checksum <= 255 * (i - 1),
        decreases 63 - i,
    {
        assert(buf@.subrange(1, i + 1).drop_last() =~= buf@.subrange(1, i as int));
        checksum = checksum + buf[i] as u16;
        i = i + 1;
    }
    let hi: u8 = (checksum >> 8) as u8;
    let lo: u8 = (checksum & 0xFF) as u8;
    assert(hi == checksum / 256 && lo == checksum % 256) by (bit_vector)
        requires
            hi == (checksum >> 8) as u8,
            lo == (checksum & 0xFF) as u8,
    ;
    buf[1 + FOOTER_BASE + 6] = hi;
    buf[1 + FOOTER_BASE + 7] = lo;
    assert(buf@ =~= report_bytes(*state));
    proof {
        lemma_report_layout(*state);
        lemma_report_checksum(*state);
        if !state.on {
            lemma_off_report(*state);
        } else if !state.blink {
            lemma_steady_report(*state);
        }
    }
    buf
}

// ---------------------------------------------------------------------------
// Properties of the encoding
// ---------------------------------------------------------------------------

/// The sum of `n` bytes is at most `255 * n`.
pub proof fn lemma_byte_sum_bound(bytes: Seq<u8>)
    ensures
        byte_sum(bytes) <= 255 * bytes.len(),
    decreases bytes.len(),
{
    if bytes.len() > 0 {
        lemma_byte_sum_bound(bytes.drop_last());
    }
}

/// Every report is 65 bytes long and starts with the report-ID byte 0x00;
/// steps 2 to 6 are always zero, and so are the sensitivity, timeout and
/// trigger bytes of the footer, which are followed by the pad `00 0F FF`.
pub proof fn lemma_report_layout(s: LightState)
    ensures
        report_bytes(s).len() == WRITE_SIZE,
        report_bytes(s)[0] == 0,
        report_bytes(s).subrange(17, 57) == zero_bytes(40),
        forall|j: int| 17 <= j < 57 ==> report_bytes(s)[j] == 0,
        report_bytes(s)[57] == 0 && report_bytes(s)[58] == 0 && report_bytes(s)[59] == 0,
        report_bytes(s)[60] == 0x00 && report_bytes(s)[61] == 0x0F && report_bytes(s)[62] == 0xFF,
{
    assert(report_bytes(s).subrange(17, 57) =~= zero_bytes(40));
    assert forall|j: int| 17 <= j < 57 implies report_bytes(s)[j] == 0 by {
        assert(report_bytes(s)[j] == report_bytes(s).subrange(17, 57)[j - 17]);
    }
}

/// The last two payload bytes are the big-endian sum of the 62 payload
/// bytes before them, for every light state.
pub proof fn lemma_report_checksum(s: LightState)
    ensures
        report_bytes(s)[63] as nat * 256 + report_bytes(s)[64] as nat == byte_sum(
            report_bytes(s).subrange(1, 63),
        ),
        byte_sum(report_bytes(s).subrange(1, 63)) < 0x10000,
{
    lemma_byte_sum_bound(checked_bytes(s));
    assert(report_bytes(s).subrange(1, 63) =~= checked_bytes(s));
}

/// The sum of one byte is that byte.
pub proof fn lemma_byte_sum_single(a: u8)
    ensures
        byte_sum(seq![a]) == a,
{
    assert(seq![a].drop_last() =~= Seq::<u8>::empty());
    assert(byte_sum(Seq::<u8>::empty()) == 0);
}

/// The sum of two byte strings laid end to end is the sum of their sums.
pub proof fn lemma_byte_sum_append(x: Seq<u8>, y: Seq<u8>)
    ensures
        byte_sum(x + y) == byte_sum(x) + byte_sum(y),
    decreases y.len(),
{
    if y.len() == 0 {
        assert(x + y =~= x);
    } else {
        lemma_byte_sum_append(x, y.drop_last());
        assert((x + y).drop_last() =~= x + y.drop_last());
    }
}

/// A light that is off: step 0 is a jump to itself with every channel and
/// duration zero, and step 1 is empty.
pub proof fn lemma_off_report(s: LightState)
    requires
        !s.on,
    ensures
        report_bytes(s)[1] == 0x10,
        forall|j: int| 2 <= j < 17 ==> report_bytes(s)[j] == 0,
{
    assert forall|j: int| 2 <= j < 17 implies report_bytes(s)[j] == 0 by {
        if j < 9 {
            assert(report_bytes(s)[j] == first_step(s)[j - 1]);
        } else {
            assert(report_bytes(s)[j] == second_step(s)[j - 9]);
        }
    }
}

/// A steady light: step 0 is a jump to itself that shows red, green and
/// blue, in that order, each scaled from 0-255 to 0-100 rounding down, with
/// no timing; step 1 is empty.
pub proof fn lemma_steady_report(s: LightState)
    requires
        s.on,
        !s.blink,
    ensures
        report_bytes(s)[1] == 0x10,
        report_bytes(s)[2] == 0,
        report_bytes(s)[3] as int == s.r as int * 100 / 255,
        report_bytes(s)[4] as int == s.g as int * 100 / 255,
        report_bytes(s)[5] as int == s.b as int * 100 / 255,
        forall|j: int| 6 <= j < 17 ==> report_bytes(s)[j] == 0,
{
    assert forall|j: int| 6 <= j < 17 implies report_bytes(s)[j] == 0 by {
        if j < 9 {
            assert(report_bytes(s)[j] == first_step(s)[j - 1]);
        } else {
            assert(report_bytes(s)[j] == second_step(s)[j - 9]);
        }
    }
}

/// A blinking light without a secondary colour (`r2`, `g2`, `b2` unset or
/// zero): step 0 is a jump to itself that shows the primary colour for the
/// "on" time and darkness for the "off" time, each in 100 ms ticks clamped
/// to 1..=255, the durations defaulting to 500 ms; step 1 is empty.
pub proof fn lemma_one_colour_blink_report(s: LightState, on_ms: u16, off_ms: u16)
    requires
        s.on,
        s.blink,
        s.blink_on_ms matches Some(v) ==> on_ms == v,
        s.blink_on_ms is None ==> on_ms == 500,
        s.blink_off_ms matches Some(v) ==> off_ms == v,
        s.blink_off_ms is None ==> off_ms == 500,
        !(s.r2 matches Some(v) && v > 0),
        !(s.g2 matches Some(v) && v > 0),
        !(s.b2 matches Some(v) && v > 0),
    ensures
        report_bytes(s)[1] == 0x10,
        report_bytes(s)[2] == 0,
        report_bytes(s)[3] as int == s.r as int * 100 / 255,
        report_bytes(s)[4] as int == s.g as int * 100 / 255,
        report_bytes(s)[5] as int == s.b as int * 100 / 255,
        report_bytes(s)[6] as int == (if on_ms < 100 {
            1
        } else if on_ms >= 25600 {
            255
        } else {
            on_ms as int / 100
        }),
        report_bytes(s)[7] as int == (if off_ms < 100 {
            1
        } else if off_ms >= 25600 {
            255
        } else {
            off_ms as int / 100
        }),
        report_bytes(s)[8] == 0,
        forall|j: int| 9 <= j < 17 ==> report_bytes(s)[j] == 0,
{
    assert(!has_second_colour(s));
    assert forall|j: int| 9 <= j < 17 implies report_bytes(s)[j] == 0 by {
        assert(report_bytes(s)[j] == second_step(s)[j - 9]);
    }
}

/// A blinking light with a secondary colour (`r2`, `g2`, `b2`, unset ones
/// counting as zero, not all zero): step 0 shows the primary colour once
/// for the "on" time and jumps to step 1; step 1 shows the secondary colour
/// once for the "off" time and jumps back to step 0. Durations are in 100 ms
/// ticks clamped to 1..=255 and default to 500 ms.
pub proof fn lemma_two_colour_blink_report(
    s: LightState,
    on_ms: u16,
    off_ms: u16,
    r2: u8,
    g2: u8,
    b2: u8,
)
    requires
        s.on,
        s.blink,
        s.blink_on_ms matches Some(v) ==> on_ms == v,
        s.blink_on_ms is None ==> on_ms == 500,
        s.blink_off_ms matches Some(v) ==> off_ms == v,
        s.blink_off_ms is None ==> off_ms == 500,
        s.r2 matches Some(v) ==> r2 == v,
        s.r2 is None ==> r2 == 0,
        s.g2 matches Some(v) ==> g2 == v,
        s.g2 is None ==> g2 == 0,
        s.b2 matches Some(v) ==> b2 == v,
        s.b2 is None ==> b2 == 0,
        r2 > 0 || g2 > 0 || b2 > 0,
    ensures
        report_bytes(s)[1] == 0x11,
        report_bytes(s)[2] == 1,
        report_bytes(s)[3] as int == s.r as int * 100 / 255,
        report_bytes(s)[4] as int == s.g as int * 100 / 255,
        report_bytes(s)[5] as int == s.b as int * 100 / 255,
        report_bytes(s)[6] as int == (if on_ms < 100 {
            1
        } else if on_ms >= 25600 {
            255
        } else {
            on_ms as int / 100
        }),
        report_bytes(s)[7] == 0,
        report_bytes(s)[8] == 0,
        report_bytes(s)[9] == 0x10,
        report_bytes(s)[10] == 1,
        report_bytes(s)[11] as int == r2 as int * 100 / 255,
        report_bytes(s)[12] as int == g2 as int * 100 / 255,
        report_bytes(s)[13] as int == b2 as int * 100 / 255,
        report_bytes(s)[14] as int == (if off_ms < 100 {
            1
        } else if off_ms >= 25600 {
            255
        } else {
            off_ms as int / 100
        }),
        report_bytes(s)[15] == 0,
        report_bytes(s)[16] == 0,
{
    assert(has_second_colour(s));
    assert(OPCODE_JUMP | 1 == 0x11) by (bit_vector);
}

/// A light that is off gets the same report whatever its colours and blink
/// settings.
pub proof fn lemma_off_ignores_settings(s1: LightState, s2: LightState)
    requires
        !s1.on,
        !s2.on,
    ensures
        report_bytes(s1) == report_bytes(s2),
{
    assert(checked_bytes(s1) =~= checked_bytes(s2));
    assert(report_bytes(s1) =~= report_bytes(s2));
}

/// When the light does not blink, the blink durations and the secondary
/// colour are ignored: the report depends on the primary colour alone.
pub proof fn lemma_steady_ignores_blink_settings(s1: LightState, s2: LightState)
    requires
        s1.on && s2.on,
        !s1.blink && !s2.blink,
        s1.r == s2.r && s1.g == s2.g && s1.b == s2.b,
    ensures
        report_bytes(s1) == report_bytes(s2),
{
    assert(checked_bytes(s1) =~= checked_bytes(s2));
    assert(report_bytes(s1) =~= report_bytes(s2));
}

/// Without a secondary colour a blinking light shows the primary colour for
/// the "on" time and is dark for the "off" time: step 0 loops on itself with
/// both durations, and step 1 stays empty.
pub proof fn lemma_blink_without_second_colour(s: LightState)
    requires
        s.on,
        s.blink,
        !has_second_colour(s),
    ensures
        report_bytes(s).subrange(1, 9) == step_bytes(
            OPCODE_JUMP,
            0,
            spec_scale(s.r),
            spec_scale(s.g),
            spec_scale(s.b),
            spec_ticks(s.spec_on_ms()),
            spec_ticks(s.spec_off_ms()),
        ),
        report_bytes(s).subrange(9, 17) == zero_bytes(8),
{
    assert(report_bytes(s).subrange(1, 9) =~= first_step(s));
    assert(report_bytes(s).subrange(9, 17) =~= second_step(s));
}

/// With a secondary colour a blinking light alternates: step 0 shows the
/// primary colour for the "on" time and jumps to step 1, which shows the
/// secondary colour for the "off" time and jumps back to step 0.
pub proof fn lemma_blink_with_second_colour(s: LightState)
    requires
        s.on,
        s.blink,
        has_second_colour(s),
    ensures
        report_bytes(s)[1] == OPCODE_JUMP | 1,
        report_bytes(s)[6] == spec_ticks(s.spec_on_ms()),
        report_bytes(s)[9] == OPCODE_JUMP,
        report_bytes(s)[14] == spec_ticks(s.spec_off_ms()),
{
}

/// The colour scale keeps black black and full brightness full, and it is
/// monotone.
pub proof fn lemma_scale_properties(a: u8, b: u8)
    ensures
        spec_scale(0) == 0,
        spec_scale(255) == 100,
        spec_scale(a) <= 100,
        a <= b ==> spec_scale(a) <= spec_scale(b),
{
    assert(a <= b ==> (a as int * 100) / 255 <= (b as int * 100) / 255) by (nonlinear_arith);
}

} // verus!
