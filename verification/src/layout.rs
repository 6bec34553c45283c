//! Layout arithmetic for a header-then-payload control block.
//!
//! The cell's allocation convention puts the two reference counters first and
//! the payload after them, with the header size rounded up to the payload's
//! alignment. The routine here computes that rounded header size: the byte
//! offset between the start of the control block and the start of the
//! payload. Subtracting it from a payload address recovers the control block,
//! so it must state the convention exactly; the lemmas below pin it down as
//! the least aligned offset that does not cut into the header.

use vstd::arithmetic::power2::pow2;
use vstd::layout::align_of;
use vstd::layout::size_of;
use vstd::prelude::*;

verus! {

/// Size in bytes of the control block's fixed header: the strong counter and
/// the weak counter, one machine word each.
pub open spec fn header_size() -> nat {
    2 * size_of::<usize>()
}

/// The byte offset of the payload inside a header-then-payload control block:
/// the header size, rounded up to the payload's alignment.
pub open spec fn data_offset_spec(align: nat) -> nat
    recommends
        1 <= align,
{
    if header_size() % align == 0 {
        header_size()
    } else {
        header_size() + (align - header_size() % align) as nat
    }
}

/// The offset is a multiple of the payload's alignment.
pub proof fn lemma_data_offset_aligned(align: nat)
    requires
        1 <= align,
    ensures
        data_offset_spec(align) % align == 0,
{
    let size = header_size();
    if size % align != 0 {
        assert((size + (align - size % align) as nat) % align == 0) by (nonlinear_arith)
            requires
                1 <= align,
                size % align != 0,
        ;
    }
}

/// The offset is the least multiple of the alignment at which the payload
/// clears the header: any aligned offset at least as large as the header is
/// at least this one.
pub proof fn lemma_data_offset_minimal(align: nat, k: nat)
    requires
        1 <= align,
        k % align == 0,
        header_size() <= k,
    ensures
        data_offset_spec(align) <= k,
{
    let size = header_size();
    if size % align != 0 {
        assert(size + (align - size % align) as nat <= k) by (nonlinear_arith)
            requires
                1 <= align,
                k % align == 0,
                size <= k,
                size % align != 0,
        ;
    }
}

/// Any power-of-two alignment leaves room in a `usize` for the header beside
/// it: the largest such alignment is half of the address space, while the
/// header is two machine words.
proof fn lemma_pow2_align_headroom(align: usize)
    requires
        vstd::arithmetic::power2::is_pow2(align as int),
    ensures
        align + header_size() <= usize::MAX,
{
    broadcast use vstd::layout::layout_of_primitives;
    broadcast use vstd::arithmetic::power2::lemma_pow2;

    vstd::layout::unsigned_int_max_values();
    vstd::arithmetic::power2::is_pow2_equiv(align as int);
    let i = choose|j: nat| vstd::arithmetic::power::pow(2, j) == align as int;
    let bits = usize::BITS as nat;
    assert(usize::MAX as nat + 1 == pow2(bits));
    vstd::arithmetic::power2::lemma_pow2(i);
    if i >= bits {
        if i > bits {
            vstd::arithmetic::power2::lemma_pow2_strictly_increases(bits, i);
        }
        assert(false);
    }
    if i < (bits - 1) as nat {
        vstd::arithmetic::power2::lemma_pow2_strictly_increases(i, (bits - 1) as nat);
    }
    assert(align <= pow2((bits - 1) as nat));
    vstd::arithmetic::power2::lemma_pow2_unfold(bits);
    assert(pow2((bits - 1) as nat) >= bits) by {
        vstd::arithmetic::power2::lemma2_to64();
        vstd::arithmetic::power2::lemma2_to64_rest();
    }
}

/// Byte offset from the start of a control block to the start of its payload,
/// for a payload of type `T`: the payload's alignment is queried from the type
/// and the header is padded up to it.
pub fn data_offset_of<T>() -> (r: usize)
    ensures
        r == data_offset_spec(align_of::<T>()),
        r % align_of::<T>() as usize == 0,
        header_size() <= r < header_size() + align_of::<T>(),
{
    vstd::layout::layout_for_type_is_valid::<T>();
    let align: usize = core::mem::align_of::<T>();
    proof {
        broadcast use vstd::layout::align_nonzero;

        lemma_pow2_align_headroom(align);
    }
    data_offset_align(align)
}

/// Byte offset from the start of a control block to the start of its payload,
/// for a payload of alignment `align`: the two-counter header plus the padding
/// that the payload's alignment requirement demands. The alignment is passed
/// in at run time because a payload's alignment may itself only be known at
/// run time.
pub fn data_offset_align(align: usize) -> (r: usize)
    requires
        1 <= align,
        align + 2 * size_of::<usize>() <= usize::MAX,
    ensures
        r == data_offset_spec(align as nat),
        r % align == 0,
        header_size() <= r < header_size() + align,
{
    broadcast use vstd::layout::layout_of_primitives;

    let header: usize = 2 * core::mem::size_of::<usize>();
    let rem: usize = header % align;
    proof {
        lemma_data_offset_aligned(align as nat);
    }
    if rem == 0 {
        header
    } else {
        header + (align - rem)
    }
}

} // verus!
