//! Sizes, strides and offsets of uniform buffers, and the pipelines that
//! use them.

use vstd::prelude::*;
use vstd::arithmetic::div_mod::{lemma_fundamental_div_mod, lemma_mod_multiples_basic};
use vstd::arithmetic::mul::{lemma_mul_inequality, lemma_mul_is_commutative};

pub mod sky;

verus! {

/// The least multiple of `step` that is not below `val`.
pub open spec fn ceil_multiple(val: nat, step: nat) -> nat
    recommends
        step > 0,
{
    if val % step == 0 {
        val
    } else {
        (val / step + 1) * step
    }
}

/// `ceil_multiple(val, step)` is a multiple of `step`, lies in
/// `[val, val + step)`, and no smaller multiple of `step` reaches `val`.
pub proof fn lemma_ceil_multiple_is_least(val: nat, step: nat)
    requires
        step > 0,
    ensures
        ceil_multiple(val, step) % step == 0,
        val <= ceil_multiple(val, step) < val + step,
        forall|k: nat| val <= #[trigger] (k * step) ==> ceil_multiple(val, step) <= k * step,
{
    let q = val / step;
    lemma_fundamental_div_mod(val as int, step as int);
    lemma_mul_is_commutative(step as int, q as int);
    assert(val == q * step + val % step);
    if val % step != 0 {
        lemma_mod_multiples_basic((q + 1) as int, step as int);
        assert((q + 1) * step == q * step + step) by (nonlinear_arith);
    }
    assert forall|k: nat| val <= #[trigger] (k * step) implies ceil_multiple(val, step) <= k
        * step by {
        if val % step != 0 {
            if k <= q {
                lemma_mul_inequality(k as int, q as int, step as int);
                assert(false);
            }
            lemma_mul_inequality((q + 1) as int, k as int, step as int);
        }
    }
}

/// Rounds `val` up to the next multiple of `step`.
pub fn ceil_to_next_multiple(val: u64, step: u64) -> (rounded: u64)
    requires
        step > 0,
        ceil_multiple(val as nat, step as nat) <= u64::MAX,
    ensures
        rounded == ceil_multiple(val as nat, step as nat),
{
    proof {
        lemma_fundamental_div_mod(val as int, step as int);
        lemma_mul_is_commutative(step as int, (val / step) as int);
    }
    let rmder: u64 = if val % step == 0 {
        0
    } else {
        1
    };
    assert(rmder == 1 ==> val / step < u64::MAX) by (nonlinear_arith)
        requires
            step > 0,
            val % step != 0 ==> step >= 2,
            rmder == 1 ==> val % step != 0,
            val == (val / step) * step + val % step,
            val <= u64::MAX,
            val % step >= 0,
            val / step >= 0,
    ;
    let divide_and_ceil: u64 = val / step + rmder;

    divide_and_ceil * step
}

/// Rounds `val` up to the next multiple of `step`, or `None` where `step`
/// is zero or the multiple does not fit in 64 bits.
pub fn checked_ceil_to_next_multiple(val: u64, step: u64) -> (rounded: Option<u64>)
    ensures
        rounded is Some <==> step > 0 && ceil_multiple(val as nat, step as nat) <= u64::MAX,
        rounded is Some ==> rounded->0 == ceil_multiple(val as nat, step as nat),
{
    if step == 0 {
        return None;
    }
    proof {
        lemma_fundamental_div_mod(val as int, step as int);
        lemma_mul_is_commutative(step as int, (val / step) as int);
    }
    if val % step == 0 {
        return Some(val);
    }
    let quotient: u64 = val / step;
    assert((quotient + 1) * step == quotient * step + step) by (nonlinear_arith);
    if val - val % step > u64::MAX - step {
        None
    } else {
        Some(val - val % step + step)
    }
}

/// Bytes of a matrix of four by four 32-bit floats.
pub const MAT4_BYTES: u64 = 64;

/// Bytes of the per-view uniform: three matrices and a position, aligned
/// to 256 bytes.
pub const VIEW_UNIFORM_BYTES: u64 = 256;

/// Bytes of the per-model uniform: one matrix, aligned to 256 bytes.
pub const MODEL_UNIFORM_BYTES: u64 = 256;

/// What a buffer may be used for.
#[derive(Copy, Clone, Debug, PartialEq, Eq, Structural)]
pub struct BufferUsages {
    pub copy_dst: bool,
    pub uniform: bool,
    pub vertex: bool,
    pub index: bool,
    pub map_read: bool,
}

/// Description of a buffer.
#[derive(Copy, Clone, Debug, PartialEq, Eq, Structural)]
pub struct BufferDescriptor {
    pub size: u64,
    pub usage: BufferUsages,
}

/// One write into a buffer: `size` bytes at `offset`.
#[derive(Copy, Clone, Debug, PartialEq, Eq, Structural)]
pub struct BufferWrite {
    pub offset: u64,
    pub size: u64,
}

/// The uses of a uniform buffer that the CPU fills.
pub open spec fn spec_uniform_usage() -> BufferUsages {
    BufferUsages { copy_dst: true, uniform: true, vertex: false, index: false, map_read: false }
}

/// Bytes of a buffer for `count` elements of `element_size` bytes, one
/// alignment unit for every byte of them.
pub open spec fn spec_uniform_buffer_size(element_size: nat, count: nat, alignment: nat) -> nat {
    element_size * count * alignment
}

/// Bytes of a buffer for `count` elements of `element_size` bytes, each
/// at a multiple of the stride, with room for one element behind the last
/// stride.
pub open spec fn spec_uniform_buffer_stride_size(
    element_size: nat,
    count: nat,
    alignment: nat,
) -> nat
    recommends
        alignment > 0,
{
    element_size + ceil_multiple(element_size, alignment) * count
}

/// The uses of a uniform buffer that the CPU fills.
pub fn uniform_usage() -> (usage: BufferUsages)
    ensures
        usage == spec_uniform_usage(),
{
    BufferUsages { copy_dst: true, uniform: true, vertex: false, index: false, map_read: false }
}

/// Describes the buffer of the per-view uniform.
pub fn create_global_uniform() -> (buffer: BufferDescriptor)
    ensures
        buffer == (BufferDescriptor { size: VIEW_UNIFORM_BYTES, usage: spec_uniform_usage() }),
{
    BufferDescriptor { size: VIEW_UNIFORM_BYTES, usage: uniform_usage() }
}

/// The write that stores the camera matrix at the start of the per-view
/// uniform.
pub fn write_global_uniform_buffer() -> (write: BufferWrite)
    ensures
        write == (BufferWrite { offset: 0, size: MAT4_BYTES }),
{
    BufferWrite { offset: 0, size: MAT4_BYTES }
}

/// Describes a uniform buffer for `count` elements of `element_size`
/// bytes on a device whose uniform offsets are multiples of
/// `uniform_alignment`; `None` where the size does not fit in 64 bits.
pub fn create_uniform_buffer(element_size: u64, count: u64, uniform_alignment: u64) -> (buffer:
    Option<BufferDescriptor>)
    ensures
        buffer is Some <==> spec_uniform_buffer_size(
            element_size as nat,
            count as nat,
            uniform_alignment as nat,
        ) <= u64::MAX,
        buffer is Some ==> buffer->0.size == spec_uniform_buffer_size(
            element_size as nat,
            count as nat,
            uniform_alignment as nat,
        ) && buffer->0.usage == spec_uniform_usage(),
{
    if element_size == 0 || count == 0 || uniform_alignment == 0 {
        assert(element_size * count * uniform_alignment == 0) by (nonlinear_arith)
            requires
                element_size == 0 || count == 0 || uniform_alignment == 0,
        ;
        return Some(BufferDescriptor { size: 0, usage: uniform_usage() });
    }
    match element_size.checked_mul(count) {
        None => {
            assert(element_size * count * uniform_alignment >= element_size * count)
                by (nonlinear_arith)
                requires
                    uniform_alignment >= 1,
                    element_size * count >= 0,
            ;
            None
        },
        Some(elements) => match elements.checked_mul(uniform_alignment) {
            None => None,
            Some(size) => Some(BufferDescriptor { size, usage: uniform_usage() }),
        },
    }
}

/// The write that stores `len` elements of `element_size` bytes at the
/// start of a uniform buffer; `None` where their size does not fit in 64
/// bits.
pub fn write_uniform_buffer(len: u64, element_size: u64) -> (write: Option<BufferWrite>)
    ensures
        write is Some <==> len * element_size <= u64::MAX,
        write is Some ==> write->0 == (BufferWrite {
            offset: 0,
            size: (len * element_size) as u64,
        }),
{
    match len.checked_mul(element_size) {
        None => None,
        Some(size) => Some(BufferWrite { offset: 0, size }),
    }
}

/// Describes a uniform buffer in which `count` elements of `element_size`
/// bytes stand one stride apart, the stride being `element_size` rounded
/// up to a multiple of `uniform_alignment`; `None` where the alignment is
/// zero or the size does not fit in 64 bits.
pub fn create_uniform_buffer_stride(element_size: u64, count: u64, uniform_alignment: u64) -> (buffer:
    Option<BufferDescriptor>)
    ensures
        buffer is Some <==> uniform_alignment > 0 && spec_uniform_buffer_stride_size(
            element_size as nat,
            count as nat,
            uniform_alignment as nat,
        ) <= u64::MAX,
        buffer is Some ==> buffer->0.size == spec_uniform_buffer_stride_size(
            element_size as nat,
            count as nat,
            uniform_alignment as nat,
        ) && buffer->0.usage == spec_uniform_usage(),
{
    if uniform_alignment == 0 {
        return None;
    }
    proof {
        lemma_ceil_multiple_is_least(element_size as nat, uniform_alignment as nat);
    }
    let ghost stride_nat = ceil_multiple(element_size as nat, uniform_alignment as nat);
    if count == 0 {
        assert(stride_nat * 0 == 0) by (nonlinear_arith);
        return Some(BufferDescriptor { size: element_size, usage: uniform_usage() });
    }
    assert(stride_nat * count >= stride_nat) by (nonlinear_arith)
        requires
            count >= 1,
            stride_nat >= 0,
    ;
    let stride: u64 = match checked_ceil_to_next_multiple(element_size, uniform_alignment) {
        None => {
            return None;
        },
        Some(stride) => stride,
    };
    let strides: u64 = match stride.checked_mul(count) {
        None => {
            return None;
        },
        Some(strides) => strides,
    };
    match element_size.checked_add(strides) {
        None => None,
        Some(size) => Some(BufferDescriptor { size, usage: uniform_usage() }),
    }
}

/// The writes that store `len` elements of `element_size` bytes one
/// stride apart, in order: element `i` at `i` times the stride. `None`
/// where the alignment is zero or an offset does not fit in 64 bits.
pub fn write_uniform_buffer_stride(len: usize, element_size: u64, uniform_alignment: u64) -> (writes:
    Option<Vec<BufferWrite>>)
    ensures
        writes is Some <==> uniform_alignment > 0 && (len > 0 ==> ceil_multiple(
            element_size as nat,
            uniform_alignment as nat,
        ) * (len - 1) <= u64::MAX),
        writes is Some ==> writes->0@.len() == len && forall|i: int|
            0 <= i < len ==> #[trigger] writes->0@[i] == (BufferWrite {
                offset: (ceil_multiple(element_size as nat, uniform_alignment as nat) * i) as u64,
                size: element_size,
            }),
{
    if uniform_alignment == 0 {
        return None;
    }
    let mut writes: Vec<BufferWrite> = Vec::new();
    if len == 0 {
        return Some(writes);
    }
    proof {
        lemma_ceil_multiple_is_least(element_size as nat, uniform_alignment as nat);
    }
    let ghost stride_nat = ceil_multiple(element_size as nat, uniform_alignment as nat);
    let stride: u64 = match checked_ceil_to_next_multiple(element_size, uniform_alignment) {
        None => {
            if len > 1 {
                assert(stride_nat * (len - 1) >= stride_nat) by (nonlinear_arith)
                    requires
                        len - 1 >= 1,
                        stride_nat >= 0,
                ;
                return None;
            }
            assert(stride_nat * 0 == 0) by (nonlinear_arith);
            writes.push(BufferWrite { offset: 0, size: element_size });
            return Some(writes);
        },
        Some(stride) => stride,
    };
    assert(stride * 0 == 0) by (nonlinear_arith);
    let last: u64 = match stride.checked_mul((len - 1) as u64) {
        None => {
            return None;
        },
        Some(last) => last,
    };
    let mut i: usize = 0;
    while i < len
        invariant
            i <= len,
            stride == stride_nat,
            stride * (len - 1) <= u64::MAX,
            writes@.len() == i,
            forall|j: int|
                0 <= j < i ==> #[trigger] writes@[j] == (BufferWrite {
                    offset: (stride_nat * j) as u64,
                    size: element_size,
                }),
        decreases len - i,
    {
        assert(0 <= stride * i <= stride * (len - 1)) by (nonlinear_arith)
            requires
                0 <= i <= len - 1,
                0 <= stride,
        ;
        let offset: u64 = stride * (i as u64);
        writes.push(BufferWrite { offset, size: element_size });
        i = i + 1;
    }
    Some(writes)
}

} // verus!
