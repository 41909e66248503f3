//! Reconstruction of the bitmask immediates of the logical instructions.
//!
//! A logical immediate is a 32- or 64-bit value encoded in 13 bits (`N`,
//! `immr`, `imms`): an element of `esize` bits (2, 4, .., 64) holding a run
//! of `S + 1` ones, rotated right by `R` places within the element, and
//! repeated to fill the operand. The length of the element comes from the
//! highest set bit of `N:NOT(imms)`.
use vstd::prelude::*;
use vstd::arithmetic::power2::{
    pow2,
    lemma2_to64,
    lemma2_to64_rest,
    lemma_pow2_adds,
    lemma_pow2_pos,
    lemma_pow2_strictly_increases,
    lemma_pow2_unfold,
};
use vstd::arithmetic::div_mod::{lemma_fundamental_div_mod, lemma_fundamental_div_mod_converse};
use vstd::arithmetic::mul::lemma_mul_inequality;
use vstd::bits::{
    low_bits_mask,
    lemma_low_bits_mask_unfold,
    lemma_u64_shl_is_mul,
    lemma_u64_shr_is_div,
    lemma_u64_low_bits_mask_is_mod,
    lemma_u8_low_bits_mask_is_mod,
    lemma_u32_shl_is_mul,
    lemma_u32_pow2_no_overflow,
    lemma_u64_pow2_no_overflow,
};

verus! {

/// Index of the highest set bit of a positive number.
pub open spec fn highest_bit_index(x: nat) -> nat
    decreases x,
{
    if x <= 1 {
        0
    } else {
        1 + highest_bit_index(x / 2)
    }
}

/// `x` rotated right by `r` places within an `e`-bit field (`r <= e`).
pub open spec fn rotate_right(x: nat, r: nat, e: nat) -> nat {
    x / pow2(r) + (x % pow2(r)) * pow2((e - r) as nat)
}

/// `x` rotated left by `r` places within an `e`-bit field (`r <= e`).
pub open spec fn rotate_left(x: nat, r: nat, e: nat) -> nat {
    (x % pow2((e - r) as nat)) * pow2(r) + x / pow2((e - r) as nat)
}

/// `k` copies of the `e`-bit pattern `p` side by side.
pub open spec fn replicate(p: nat, e: nat, k: nat) -> nat
    decreases k,
{
    if k == 0 {
        0
    } else {
        replicate(p, e, (k - 1) as nat) * pow2(e) + p
    }
}

/// Number of bits of the operand: 32 or 64.
pub open spec fn operand_width(w32: bool) -> nat {
    if w32 {
        32
    } else {
        64
    }
}

/// The seven-bit value `N:NOT(imms)` whose highest set bit gives the length
/// of the element.
pub open spec fn length_selector(immN: u8, imms: u8) -> nat {
    (immN % 2) as nat * 64 + (63 - imms % 64) as nat
}

/// The encodings that stand for a bitmask: `N:NOT(imms)` is not zero, and a
/// 32-bit operand has `N` clear.
pub open spec fn bitmask_encodable(immN: u8, imms: u8, w32: bool) -> bool {
    &&& length_selector(immN, imms) != 0
    &&& w32 ==> immN % 2 == 0
}

/// `esize`: the number of bits of the repeated element.
pub open spec fn element_size(immN: u8, imms: u8) -> nat {
    pow2(highest_bit_index(length_selector(immN, imms)))
}

/// `S`: one less than the number of ones in the element.
pub open spec fn element_ones(immN: u8, imms: u8) -> nat {
    (imms % 64) as nat % element_size(immN, imms)
}

/// `R`: the right rotation of the element.
pub open spec fn element_rotation(immN: u8, imms: u8, immr: u8) -> nat {
    (immr % 64) as nat % element_size(immN, imms)
}

/// The element: `S + 1` ones, rotated right by `R`.
pub open spec fn bitmask_element(immN: u8, imms: u8, immr: u8) -> nat {
    rotate_right(
        low_bits_mask(element_ones(immN, imms) + 1),
        element_rotation(immN, imms, immr),
        element_size(immN, imms),
    )
}

/// The decoded bitmask: the element repeated over the operand width.
pub open spec fn bitmask_value(immN: u8, imms: u8, immr: u8, w32: bool) -> nat {
    replicate(
        bitmask_element(immN, imms, immr),
        element_size(immN, imms),
        operand_width(w32) / element_size(immN, imms),
    )
}

proof fn lemma_highest_bit_bounds(x: nat)
    requires
        x >= 1,
    ensures
        pow2(highest_bit_index(x)) <= x < pow2(highest_bit_index(x) + 1),
    decreases x,
{
    if x <= 1 {
        lemma2_to64();
    } else {
        lemma_highest_bit_bounds(x / 2);
        lemma_pow2_unfold(highest_bit_index(x));
        lemma_pow2_unfold(highest_bit_index(x) + 1);
    }
}

/// A number below `2^k` has its highest set bit below `k`.
proof fn lemma_highest_bit_below(x: nat, k: nat)
    requires
        1 <= x < pow2(k),
    ensures
        highest_bit_index(x) < k,
{
    lemma_highest_bit_bounds(x);
    if highest_bit_index(x) >= k {
        if highest_bit_index(x) > k {
            lemma_pow2_strictly_increases(k, highest_bit_index(x));
        }
    }
}

/// Index of the highest set bit of `x`, which must not be zero.
fn highest_bit(x: u32) -> (n: u32)
    requires
        x >= 1,
    ensures
        n == highest_bit_index(x as nat),
        n < 32,
{
    proof {
        lemma2_to64();
        lemma_highest_bit_below(x as nat, 32);
    }
    let ghost x0 = x;
    let mut x = x;
    let mut n: u32 = 0;
    while x != 1
        invariant
            x >= 1,
            n + highest_bit_index(x as nat) == highest_bit_index(x0 as nat),
            highest_bit_index(x0 as nat) < 32,
        decreases x,
    {
        assert(x >> 1u32 == x / 2) by (bit_vector);
        x = x >> 1;
        n = n + 1;
    }
    n
}

proof fn lemma_ror_bits(x: u64, n: u64, len: u64)
    by (bit_vector)
    requires
        0 < n < len,
        len <= 64,
        len == 64 || x >> len == 0,
    ensures
        len < 64 ==> ((x >> n) | (x << ((len - n) as u64))) & ((1u64 << len) - 1) as u64 == (x >> n) + ((x & ((1u64 << n) - 1) as u64) << ((len - n) as u64)),
        len == 64 ==> (x >> n) | (x << ((len - n) as u64)) == (x >> n) + ((x & ((1u64 << n) - 1) as u64) << ((len - n) as u64)),
{
}

/// A number below `2^n` shifted left by `m` places stays below `2^(n + m)`.
proof fn lemma_below_pow2_shifted(v: nat, n: nat, m: nat)
    requires
        v < pow2(n),
    ensures
        v * pow2(m) < pow2(n + m),
        v * pow2(m) + pow2(m) <= pow2(n + m),
{
    lemma_pow2_pos(m);
    lemma_pow2_adds(n, m);
    lemma_mul_inequality(v as int + 1, pow2(n) as int, pow2(m) as int);
    assert((v + 1) * pow2(m) == v * pow2(m) + pow2(m)) by (nonlinear_arith);
}

/// Powers of two up to `2^64` fit in 65 bits.
proof fn lemma_pow2_at_most_64(k: nat)
    requires
        k <= 64,
    ensures
        pow2(k) <= 0x1_0000_0000_0000_0000,
{
    lemma2_to64_rest();
    if k < 64 {
        lemma_pow2_strictly_increases(k, 64);
    }
}

/// `1 << k` is `2^k`, and one less is the mask of the `k` low bits.
proof fn lemma_u64_one_shl(k: u64)
    requires
        k < 64,
    ensures
        1u64 << k == pow2(k as nat),
        ((1u64 << k) - 1) as u64 == low_bits_mask(k as nat),
{
    lemma_u64_pow2_no_overflow(k as nat);
    lemma_u64_shl_is_mul(1, k);
}

/// Rotates the `len`-bit number `x` right by `n` places.
fn ror(x: u64, n: u32, len: u32) -> (r: u64)
    requires
        1 <= len <= 64,
        n < len,
        x < pow2(len as nat),
    ensures
        r == rotate_right(x as nat, n as nat, len as nat),
{
    proof {
        lemma2_to64();
    }
    if n == 0 {
        assert(x as nat % 1 == 0 && x as nat / 1 == x);
        return x;
    }
    let n: u64 = n as u64;
    let len: u64 = len as u64;
    let raw: u64 = (x >> n) | (x << ((len - n) as u64));
    proof {
        let low = x & ((1u64 << n) - 1) as u64;
        if len < 64 {
            lemma_u64_shr_is_div(x, len);
            lemma_fundamental_div_mod_converse(x as int, pow2(len as nat) as int, 0, x as int);
        }
        lemma_ror_bits(x, n, len);
        lemma_u64_shr_is_div(x, n);
        lemma_u64_one_shl(n);
        lemma_u64_low_bits_mask_is_mod(x, n as nat);
        assert(low == x % pow2(n as nat) as u64);
        lemma_u64_pow2_no_overflow(n as nat);
        assert(low < pow2(n as nat));
        lemma_below_pow2_shifted(low as nat, n as nat, (len - n) as nat);
        lemma_pow2_at_most_64(len as nat);
        lemma_u64_shl_is_mul(low, (len - n) as u64);
    }
    if len == 64 {
        return raw;
    }
    proof {
        lemma_u64_one_shl(len);
    }
    raw & ((1u64 << len) - 1)
}

proof fn lemma_rotate_right_bound(x: nat, r: nat, e: nat)
    requires
        x < pow2(e),
        r <= e,
    ensures
        rotate_right(x, r, e) < pow2(e),
{
    lemma_pow2_pos(r);
    lemma_pow2_adds((e - r) as nat, r);
    let q = x / pow2(r);
    let m = x % pow2(r);
    lemma_fundamental_div_mod(x as int, pow2(r) as int);
    assert(q < pow2((e - r) as nat)) by (nonlinear_arith)
        requires
            x == q * pow2(r) + m,
            m >= 0,
            x < pow2(e),
            pow2(e) == pow2((e - r) as nat) * pow2(r),
            pow2(r) > 0,
    ;
    lemma_below_pow2_shifted(m, r, (e - r) as nat);
    assert(rotate_right(x, r, e) == q + m * pow2((e - r) as nat));
}

proof fn lemma_or_below_is_add(w: u64, p: u64, e: u64)
    by (bit_vector)
    requires
        e < 64,
        p >> e == 0,
    ensures
        (w << e) | p == (w << e) + p,
{
}

proof fn lemma_replicate_bound(p: nat, e: nat, k: nat)
    requires
        p < pow2(e),
    ensures
        replicate(p, e, k) < pow2(e * k),
    decreases k,
{
    if k == 0 {
        lemma_pow2_pos(0);
    } else {
        lemma_replicate_bound(p, e, (k - 1) as nat);
        lemma_below_pow2_shifted(replicate(p, e, (k - 1) as nat), e * (k - 1) as nat, e);
        assert(e * (k - 1) as nat + e == e * k) by (nonlinear_arith)
            requires
                k >= 1,
        ;
    }
}

/// The immediate of a logical instruction: the bitmask encoded by `N`,
/// `imms` and `immr` (taken to 1, 6 and 6 bits), for a 32-bit operand when
/// `w32` is set and a 64-bit one otherwise.
pub fn decode_bitmask(immN: u8, imms: u8, immr: u8, w32: bool) -> (r: u64)
    requires
        bitmask_encodable(immN, imms, w32),
    ensures
        r == bitmask_value(immN, imms, immr, w32),
{
    let m: u32 = if w32 {
        32
    } else {
        64
    };
    let n1: u8 = immN & 1;
    let s6: u8 = imms & 0b111111;
    let r6: u8 = immr & 0b111111;
    let sel: u8 = (n1 << 6u8) | ((!s6) & 0b111111);
    assert(sel == (immN % 2) * 64 + (63 - imms % 64) && s6 == imms % 64 && r6 == immr % 64
        && sel < 128 && (immN % 2 == 0 ==> sel < 64)) by (bit_vector)
        requires
            n1 == immN & 1,
            s6 == imms & 0b111111,
            r6 == immr & 0b111111,
            sel == (n1 << 6u8) | ((!s6) & 0b111111),
    ;
    let len: u32 = highest_bit(sel as u32);
    proof {
        lemma2_to64();
        lemma_highest_bit_below(sel as nat, 7);
        if w32 {
            lemma_highest_bit_below(sel as nat, 6);
        }
    }
    let ghost wbits: nat = if w32 {
        5
    } else {
        6
    };
    assert(len <= wbits);

    // The `len` low bits, the mask that takes `S` and `R` out of `imms` and `immr`.
    let mut levels: u8 = 0;
    let mut i: u32 = 0;
    while i < len
        invariant
            i <= len <= 6,
            levels == low_bits_mask(i as nat),
        decreases len - i,
    {
        proof {
            lemma_low_bits_mask_unfold((i + 1) as nat);
            lemma2_to64();
            lemma_pow2_strictly_increases(i as nat, 7);
        }
        assert((levels << 1u8) | 1 == 2 * levels + 1) by (bit_vector)
            requires
                levels < 128,
        ;
        levels = (levels << 1) | 1;
        i = i + 1;
    }
    proof {
        lemma_u8_low_bits_mask_is_mod(s6, len as nat);
        lemma_u8_low_bits_mask_is_mod(r6, len as nat);
    }
    let s: u32 = (s6 & levels) as u32;
    let r: u32 = (r6 & levels) as u32;
    proof {
        lemma_u32_pow2_no_overflow(len as nat);
        lemma_u32_shl_is_mul(1, len);
    }
    let esize: u32 = 1u32 << len;
    assert(esize == pow2(len as nat));
    assert(s < esize && r < esize);

    // welem: `S + 1` ones.
    let mut welem: u64 = 0;
    let mut j: u32 = 0;
    while j < s + 1
        invariant
            j <= s + 1 <= esize <= 64,
            welem == low_bits_mask(j as nat),
        decreases s + 1 - j,
    {
        proof {
            lemma_low_bits_mask_unfold((j + 1) as nat);
            lemma2_to64();
            lemma2_to64_rest();
            lemma_pow2_strictly_increases(j as nat, 64);
        }
        assert((welem << 1u64) | 1 == 2 * welem + 1) by (bit_vector)
            requires
                welem < 0x8000_0000_0000_0000,
        ;
        welem = (welem << 1) | 1;
        j = j + 1;
    }
    proof {
        if s + 1 < esize {
            lemma_pow2_strictly_increases((s + 1) as nat, esize as nat);
        }
        lemma_pow2_pos((s + 1) as nat);
    }
    let rot: u64 = ror(welem, r, esize);
    proof {
        assert(rot < pow2(esize as nat)) by {
            lemma_rotate_right_bound(welem as nat, r as nat, esize as nat);
        }
    }

    // Repeat the element until it fills the operand.
    let ghost total: nat = pow2((wbits - len) as nat);
    proof {
        lemma_pow2_adds(len as nat, (wbits - len) as nat);
        assert(pow2(wbits) == m);
        assert(m == pow2(len as nat) * total);
        assert(m == total * esize) by (nonlinear_arith)
            requires
                m == pow2(len as nat) * total,
                esize == pow2(len as nat),
        ;
        assert(total >= 1) by {
            lemma_pow2_pos((wbits - len) as nat);
        }
    }
    assert(replicate(rot as nat, esize as nat, 1) == rot) by {
        assert(replicate(rot as nat, esize as nat, 0) == 0);
        assert(0 * pow2(esize as nat) == 0);
    }
    let mut wmask: u64 = rot;
    let mut filled: u32 = esize;
    let ghost mut k: nat = 1;
    while filled < m
        invariant
            1 <= k <= total,
            filled == k * esize,
            filled <= m,
            m == total * esize,
            m <= 64,
            esize >= 1,
            esize == pow2(len as nat),
            rot < pow2(esize as nat),
            wmask == replicate(rot as nat, esize as nat, k),
        decreases m - filled,
    {
        assert(k < total) by (nonlinear_arith)
            requires
                filled == k * esize,
                m == total * esize,
                filled < m,
                esize >= 1,
        ;
        assert(filled + esize <= m && esize <= filled) by (nonlinear_arith)
            requires
                filled == k * esize,
                m == total * esize,
                k + 1 <= total,
                k >= 1,
                esize >= 1,
        ;
        proof {
            lemma_replicate_bound(rot as nat, esize as nat, k);
            assert(esize as nat * k == filled as nat) by (nonlinear_arith)
                requires
                    filled == k * esize,
            ;
            lemma_below_pow2_shifted(wmask as nat, filled as nat, esize as nat);
            lemma_pow2_at_most_64((filled + esize) as nat);
            lemma_u64_shl_is_mul(wmask, esize as u64);
            lemma_u64_shr_is_div(rot, esize as u64);
            lemma_fundamental_div_mod_converse(rot as int, pow2(esize as nat) as int, 0, rot as int);
            lemma_or_below_is_add(wmask, rot, esize as u64);
        }
        let ghost old_filled = filled;
        wmask = (wmask << esize) | rot;
        filled = filled + esize;
        proof {
            k = k + 1;
            assert(filled == k * esize) by (nonlinear_arith)
                requires
                    filled == old_filled + esize,
                    old_filled == (k - 1) * esize,
            ;
        }
    }
    proof {
        assert(k == m as nat / esize as nat) by (nonlinear_arith)
            requires
                filled == k * esize,
                filled == m,
                esize >= 1,
        ;
    }
    wmask
}

proof fn lemma_rotate_left_right(x: nat, r: nat, e: nat)
    requires
        x < pow2(e),
        r <= e,
    ensures
        rotate_left(rotate_right(x, r, e), r, e) == x,
{
    lemma_pow2_pos(r);
    lemma_pow2_pos((e - r) as nat);
    lemma_pow2_adds((e - r) as nat, r);
    let q = x / pow2(r);
    let m = x % pow2(r);
    lemma_fundamental_div_mod(x as int, pow2(r) as int);
    assert(q < pow2((e - r) as nat)) by (nonlinear_arith)
        requires
            x == pow2(r) * q + m,
            m >= 0,
            x < pow2(e),
            pow2(e) == pow2((e - r) as nat) * pow2(r),
            pow2(r) > 0,
    ;
    let y = rotate_right(x, r, e);
    assert(y == m * pow2((e - r) as nat) + q);
    lemma_fundamental_div_mod_converse(y as int, pow2((e - r) as nat) as int, m as int, q as int);
    assert(rotate_left(y, r, e) == q * pow2(r) + m);
    assert(q * pow2(r) == pow2(r) * q) by (nonlinear_arith);
}

proof fn lemma_replicate_low_element(p: nat, e: nat, k: nat)
    requires
        p < pow2(e),
        k >= 1,
    ensures
        replicate(p, e, k) % pow2(e) == p,
{
    lemma_fundamental_div_mod_converse(
        replicate(p, e, k) as int,
        pow2(e) as int,
        replicate(p, e, (k - 1) as nat) as int,
        p as int,
    );
}

/// Decoding inverts the encoding rule: the low element of a decoded bitmask
/// (its first `esize` bits), rotated left by `R`, is a run of `S + 1` ones.
pub proof fn lemma_bitmask_round_trip(immN: u8, imms: u8, immr: u8, w32: bool)
    requires
        bitmask_encodable(immN, imms, w32),
    ensures
        rotate_left(
            bitmask_value(immN, imms, immr, w32) % pow2(element_size(immN, imms)),
            element_rotation(immN, imms, immr),
            element_size(immN, imms),
        ) == low_bits_mask(element_ones(immN, imms) + 1),
{
    let sel = length_selector(immN, imms);
    let len = highest_bit_index(sel);
    let e = element_size(immN, imms);
    let s = element_ones(immN, imms);
    let r = element_rotation(immN, imms, immr);
    lemma2_to64();
    lemma_highest_bit_below(sel, 7);
    if w32 {
        lemma_highest_bit_below(sel, 6);
        if len < 5 {
            lemma_pow2_strictly_increases(len, 5);
        }
    } else if len < 6 {
        lemma_pow2_strictly_increases(len, 6);
    }
    assert(e <= operand_width(w32));
    lemma_pow2_pos(len);
    assert(operand_width(w32) / e >= 1) by (nonlinear_arith)
        requires
            1 <= e <= operand_width(w32),
    ;
    lemma_pow2_pos(s + 1);
    if s + 1 < e {
        lemma_pow2_strictly_increases(s + 1, e);
    }
    let ones = low_bits_mask(s + 1);
    assert(ones < pow2(e));
    lemma_rotate_right_bound(ones, r, e);
    lemma_replicate_low_element(rotate_right(ones, r, e), e, operand_width(w32) / e);
    lemma_rotate_left_right(ones, r, e);
}

} // verus!
