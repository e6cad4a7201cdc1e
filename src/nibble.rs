use vstd::prelude::*;

verus! {

/// The number that a sequence of 4-bit fields spells, most significant first.
pub open spec fn nibbles_value(s: Seq<u8>) -> nat
    decreases s.len(),
{
    if s.len() == 0 {
        0
    } else {
        nibbles_value(s.drop_last()) * 16 + s.last() as nat
    }
}

/// Every element of `s` is a 4-bit field.
pub open spec fn nibble_seq(s: Seq<u8>) -> bool {
    forall|k: int| 0 <= k < s.len() ==> #[trigger] s[k] < 16
}

proof fn lemma_shift_step(acc: u16, v: u8, a: nat)
    requires
        v < 16,
        acc as nat == a % 0x10000,
    ensures
        ((acc << 4u16) as u16) as int + v as int <= u16::MAX as int,
        ((acc << 4u16) as u16) as nat + v as nat == (a * 16 + v as nat) % 0x10000,
{
    let sh = (acc << 4u16) as u16;
    assert(sh == (acc * 16) % 65536 && sh % 16 == 0) by (bit_vector)
        requires
            sh == (acc << 4u16) as u16,
    ;
    assert((a % 0x10000) * 16 % 0x10000 + v as nat == (a * 16 + v as nat) % 0x10000)
        by (nonlinear_arith)
        requires
            v < 16,
            (a % 0x10000) * 16 % 0x10000 % 16 == 0,
    {
        assert((a % 0x10000) * 16 % 0x10000 == a * 16 % 0x10000) by {
            vstd::arithmetic::div_mod::lemma_mul_mod_noop_left(a as int, 16, 0x10000);
        }
    }
}

/// Combines 4-bit fields into one number: for each field in turn, the value
/// so far is shifted left by four bits and the field added. Only the low 16
/// bits are kept.
pub fn combine(arr: &[u8]) -> (r: u16)
    requires
        nibble_seq(arr@),
    ensures
        r as nat == nibbles_value(arr@) % 0x10000,
{
    let mut val: u16 = 0;
    let mut k: usize = 0;
    while k < arr.len()
        invariant
            k <= arr.len(),
            nibble_seq(arr@),
            val as nat == nibbles_value(arr@.subrange(0, k as int)) % 0x10000,
        decreases arr.len() - k,
    {
        let v = arr[k];
        proof {
            lemma_shift_step(val, v, nibbles_value(arr@.subrange(0, k as int)));
            assert(arr@.subrange(0, k + 1).drop_last() =~= arr@.subrange(0, k as int));
        }
        val = (val << 4u16) + v as u16;
        k = k + 1;
    }
    assert(arr@.subrange(0, arr.len() as int) =~= arr@);
    val
}

/// Splits the two bytes of an instruction into its four 4-bit fields, high
/// nibble first.
pub fn split_nibbles(hi: u8, lo: u8) -> (r: [u8; 4])
    ensures
        r@ == seq![hi / 16, hi % 16, lo / 16, lo % 16],
{
    assert(hi >> 4u8 == hi / 16 && hi & 0x0fu8 == hi % 16) by (bit_vector);
    assert(lo >> 4u8 == lo / 16 && lo & 0x0fu8 == lo % 16) by (bit_vector);
    let r = [hi >> 4u8, hi & 0x0fu8, lo >> 4u8, lo & 0x0fu8];
    assert(r@ =~= seq![hi / 16, hi % 16, lo / 16, lo % 16]);
    r
}

} // verus!
