//! Linux ABI constants used by the epoll flag sets, and the bit-level facts
//! that the flag types rest on.

use vstd::prelude::*;

verus! {

/// `EPOLLIN`: data is available to read.
pub const EPOLLIN: u32 = 0x1;
/// `EPOLLPRI`: urgent out-of-band data.
pub const EPOLLPRI: u32 = 0x2;
/// `EPOLLOUT`: writing will not block.
pub const EPOLLOUT: u32 = 0x4;
/// `EPOLLERR`: error condition.
pub const EPOLLERR: u32 = 0x8;
/// `EPOLLHUP`: hang up.
pub const EPOLLHUP: u32 = 0x10;
/// `EPOLLRDHUP`: peer closed its write end.
pub const EPOLLRDHUP: u32 = 0x2000;
/// `EPOLLEXCLUSIVE`: exclusive wake-up.
pub const EPOLLEXCLUSIVE: u32 = 0x1000_0000;
/// `EPOLLWAKEUP`: keep the system from suspending.
pub const EPOLLWAKEUP: u32 = 0x2000_0000;
/// `EPOLLONESHOT`: disable the descriptor after one event.
pub const EPOLLONESHOT: u32 = 0x4000_0000;
/// `EPOLLET`: edge-triggered notification.
pub const EPOLLET: u32 = 0x8000_0000;

/// The bits that an interest set may hold.
pub const INTEREST_ALL: u32 = 0xF000_201F;
/// The bits that a readiness set may hold.
pub const READINESS_ALL: u32 = 0x0000_201F;

/// `flag` is wholly contained in `bits`.
pub open spec fn has_flag(bits: u32, flag: u32) -> bool {
    bits & flag == flag
}

/// `bits` shares at least one bit with `flags`.
pub open spec fn shares_bits(bits: u32, flags: u32) -> bool {
    bits & flags != 0
}

/// Setting a flag makes it present and keeps every flag that was present.
pub proof fn lemma_set_flag(bits: u32, flag: u32, other: u32)
    ensures
        has_flag(bits | flag, flag),
        has_flag(bits, other) ==> has_flag(bits | flag, other),
{
    assert((bits | flag) & flag == flag) by (bit_vector);
    assert(bits & other == other ==> (bits | flag) & other == other) by (bit_vector);
}

/// Setting two flags does not depend on their order, and setting a flag twice
/// is the same as setting it once.
pub proof fn lemma_set_flags_commute(bits: u32, a: u32, b: u32)
    ensures
        (bits | a) | b == (bits | b) | a,
        (bits | a) | a == bits | a,
{
    assert((bits | a) | b == (bits | b) | a) by (bit_vector);
    assert((bits | a) | a == bits | a) by (bit_vector);
}

/// Setting a flag leaves a single other bit unchanged.
pub proof fn lemma_set_flag_keeps_absent(bits: u32, flag: u32, other: u32)
    requires
        flag & other == 0,
    ensures
        has_flag(bits | flag, other) == has_flag(bits, other),
{
    assert(flag & other == 0 ==> (((bits | flag) & other == other) == (bits & other == other)))
        by (bit_vector);
}

/// For two single-bit flags, sharing a bit with their union is having one of
/// them.
pub proof fn lemma_closed_is_either(bits: u32)
    ensures
        shares_bits(bits, EPOLLHUP | EPOLLRDHUP) == (has_flag(bits, EPOLLHUP) || has_flag(
            bits,
            EPOLLRDHUP,
        )),
{
    assert((bits & (0x10u32 | 0x2000u32) != 0) == (bits & 0x10u32 == 0x10u32 || bits & 0x2000u32
        == 0x2000u32)) by (bit_vector);
}

/// Masking keeps exactly the flags that lie inside the mask.
pub proof fn lemma_mask_flag(bits: u32, mask: u32, flag: u32)
    requires
        mask & flag == flag,
    ensures
        has_flag(bits & mask, flag) == has_flag(bits, flag),
{
    assert(mask & flag == flag ==> (((bits & mask) & flag == flag) == (bits & flag == flag)))
        by (bit_vector);
}

/// Reading a reported mask keeps every readiness condition as reported.
pub proof fn lemma_truncate_keeps_readiness(bits: u32)
    ensures
        has_flag(bits & READINESS_ALL, EPOLLIN) == has_flag(bits, EPOLLIN),
        has_flag(bits & READINESS_ALL, EPOLLOUT) == has_flag(bits, EPOLLOUT),
        has_flag(bits & READINESS_ALL, EPOLLPRI) == has_flag(bits, EPOLLPRI),
        has_flag(bits & READINESS_ALL, EPOLLERR) == has_flag(bits, EPOLLERR),
        has_flag(bits & READINESS_ALL, EPOLLHUP) == has_flag(bits, EPOLLHUP),
        has_flag(bits & READINESS_ALL, EPOLLRDHUP) == has_flag(bits, EPOLLRDHUP),
{
    assert({
        &&& ((bits & 0x201Fu32) & 0x1u32 == 0x1u32) == (bits & 0x1u32 == 0x1u32)
        &&& ((bits & 0x201Fu32) & 0x4u32 == 0x4u32) == (bits & 0x4u32 == 0x4u32)
        &&& ((bits & 0x201Fu32) & 0x2u32 == 0x2u32) == (bits & 0x2u32 == 0x2u32)
        &&& ((bits & 0x201Fu32) & 0x8u32 == 0x8u32) == (bits & 0x8u32 == 0x8u32)
        &&& ((bits & 0x201Fu32) & 0x10u32 == 0x10u32) == (bits & 0x10u32 == 0x10u32)
        &&& ((bits & 0x201Fu32) & 0x2000u32 == 0x2000u32) == (bits & 0x2000u32 == 0x2000u32)
    }) by (bit_vector);
}

/// The flags of an interest set are distinct bits: setting one never sets
/// another.
pub proof fn lemma_interest_flags_distinct()
    ensures
        EPOLLIN & EPOLLOUT == 0,
        EPOLLIN & EPOLLET == 0,
        EPOLLOUT & EPOLLET == 0,
        EPOLLHUP & EPOLLRDHUP == 0,
        EPOLLONESHOT & EPOLLEXCLUSIVE == 0,
        EPOLLWAKEUP & EPOLLET == 0,
        INTEREST_ALL == (((((((((EPOLLIN | EPOLLOUT) | EPOLLPRI) | EPOLLERR) | EPOLLHUP)
            | EPOLLRDHUP) | EPOLLET) | EPOLLONESHOT) | EPOLLEXCLUSIVE) | EPOLLWAKEUP),
        READINESS_ALL == (((((EPOLLIN | EPOLLOUT) | EPOLLPRI) | EPOLLERR) | EPOLLHUP) | EPOLLRDHUP),
{
    assert({
        &&& 0x1u32 & 0x4u32 == 0
        &&& 0x1u32 & 0x8000_0000u32 == 0
        &&& 0x4u32 & 0x8000_0000u32 == 0
        &&& 0x10u32 & 0x2000u32 == 0
        &&& 0x4000_0000u32 & 0x1000_0000u32 == 0
        &&& 0x2000_0000u32 & 0x8000_0000u32 == 0
        &&& 0xF000_201Fu32 == (((((((((0x1u32 | 0x4u32) | 0x2u32) | 0x8u32) | 0x10u32) | 0x2000u32)
            | 0x8000_0000u32) | 0x4000_0000u32) | 0x1000_0000u32) | 0x2000_0000u32)
        &&& 0x201Fu32 == (((((0x1u32 | 0x4u32) | 0x2u32) | 0x8u32) | 0x10u32) | 0x2000u32)
    }) by (bit_vector);
}

} // verus!
