use vstd::prelude::*;
use crate::machine::{Computer, State, MEMORY_SIZE, SCREEN_START};
use crate::opcode::{reg_x, reg_y, wf_inst};

verus! {

/// Address of the display byte that receives the part of a sprite row at
/// column `x / 8` of display row `row`. The column is not wrapped.
pub open spec fn first_index(x: u8, row: int) -> int {
    SCREEN_START + row * 8 + x / 8
}

/// Address of the display byte that receives the rest of a sprite row: the
/// next column, wrapped to the 8-byte row.
pub open spec fn second_index(x: u8, row: int) -> int {
    SCREEN_START + row * 8 + (x / 8 + 1) % 8
}

/// The bits of sprite byte `b` that fall in the first display byte.
pub open spec fn first_part(b: u8, x: u8) -> u8 {
    b >> ((x % 8) as u8)
}

/// The bits of sprite byte `b` that fall in the second display byte.
pub open spec fn second_part(b: u8, x: u8) -> u8 {
    if x % 8 == 0 { 0 } else { b << ((8 - x % 8) as u8) }
}

/// Memory after XOR-ing sprite byte `b` into display row `row` at
/// horizontal position `x`, and whether a set bit met a set bit.
pub open spec fn draw_row(ram: Seq<u8>, b: u8, x: u8, row: int) -> (Seq<u8>, bool) {
    let (fi, si) = (first_index(x, row), second_index(x, row));
    let (fb, sb) = (first_part(b, x), second_part(b, x));
    let ram1 = ram.update(fi, ram[fi] ^ fb);
    let ram2 = ram1.update(si, ram1[si] ^ sb);
    (ram2, fb & ram[fi] != 0 || sb & ram1[si] != 0)
}

/// Memory after drawing the first `k` rows of `sprite` at (`x`, `y`), and
/// whether any of them collided.
pub open spec fn draw_rows(ram: Seq<u8>, sprite: Seq<u8>, x: u8, y: u8, k: nat) -> (Seq<u8>, bool)
    decreases k,
{
    if k == 0 {
        (ram, false)
    } else {
        let (r, hit) = draw_rows(ram, sprite, x, y, (k - 1) as nat);
        let (r2, hit2) = draw_row(r, sprite[k - 1], x, y + k - 1);
        (r2, hit || hit2)
    }
}

/// What one sprite row XORs into the byte at address `j`.
pub open spec fn row_contribution(b: u8, x: u8, row: int, j: int) -> u8 {
    (if j == first_index(x, row) { first_part(b, x) } else { 0u8 }) ^ (if j == second_index(x, row) {
        second_part(b, x)
    } else {
        0u8
    })
}

/// What the first `k` rows of a sprite XOR into the byte at address `j`.
pub open spec fn draw_mask(sprite: Seq<u8>, x: u8, y: u8, k: nat, j: int) -> u8
    decreases k,
{
    if k == 0 {
        0
    } else {
        draw_mask(sprite, x, y, (k - 1) as nat, j) ^ row_contribution(sprite[k - 1], x, y + k - 1, j)
    }
}

proof fn lemma_xor_facts()
    ensures
        forall|a: u8| #[trigger] (a ^ 0u8) == a,
        forall|a: u8| #[trigger] (0u8 ^ a) == a,
        forall|a: u8, b: u8, c: u8| #[trigger] ((a ^ b) ^ c) == a ^ (b ^ c),
        forall|a: u8, b: u8| #[trigger] ((a ^ b) ^ b) == a,
{
    assert(forall|a: u8| #[trigger] (a ^ 0u8) == a) by (bit_vector);
    assert(forall|a: u8| #[trigger] (0u8 ^ a) == a) by (bit_vector);
    assert(forall|a: u8, b: u8, c: u8| #[trigger] ((a ^ b) ^ c) == a ^ (b ^ c)) by (bit_vector);
    assert(forall|a: u8, b: u8| #[trigger] ((a ^ b) ^ b) == a) by (bit_vector);
}

/// The rows `0..k` of a draw stay inside memory.
pub open spec fn rows_fit(len: nat, x: u8, y: u8, k: nat) -> bool {
    k > 0 ==> first_index(x, y + k - 1) < len && second_index(x, y + k - 1) < len
}

/// Drawing XORs a pattern that depends on the sprite and the position alone.
proof fn lemma_draw_is_xor(ram: Seq<u8>, sprite: Seq<u8>, x: u8, y: u8, k: nat)
    requires
        rows_fit(ram.len(), x, y, k),
        k <= sprite.len(),
    ensures
        draw_rows(ram, sprite, x, y, k).0.len() == ram.len(),
        forall|j: int| 0 <= j < ram.len() ==> #[trigger] draw_rows(ram, sprite, x, y, k).0[j]
            == ram[j] ^ draw_mask(sprite, x, y, k, j),
    decreases k,
{
    lemma_xor_facts();
    if k > 0 {
        let k1 = (k - 1) as nat;
        lemma_draw_is_xor(ram, sprite, x, y, k1);
        let r = draw_rows(ram, sprite, x, y, k1).0;
        let row = y + k - 1;
        let (fi, si) = (first_index(x, row), second_index(x, row));
        assert(fi != si);
        assert forall|j: int| 0 <= j < ram.len() implies #[trigger] draw_rows(
            ram,
            sprite,
            x,
            y,
            k,
        ).0[j] == ram[j] ^ draw_mask(sprite, x, y, k, j) by {
            let m = draw_mask(sprite, x, y, k1, j);
            assert(r[j] == ram[j] ^ m);
            assert((ram[j] ^ m) ^ row_contribution(sprite[k - 1], x, row, j) == ram[j] ^ (m
                ^ row_contribution(sprite[k - 1], x, row, j)));
        }
    } else {
        assert forall|j: int| 0 <= j < ram.len() implies #[trigger] draw_rows(
            ram,
            sprite,
            x,
            y,
            k,
        ).0[j] == ram[j] ^ draw_mask(sprite, x, y, k, j) by {}
    }
}

/// A draw leaves every byte below the display region alone.
proof fn lemma_mask_below_screen(sprite: Seq<u8>, x: u8, y: u8, k: nat, j: int)
    requires
        j < SCREEN_START,
    ensures
        draw_mask(sprite, x, y, k, j) == 0,
    decreases k,
{
    lemma_xor_facts();
    if k > 0 {
        lemma_mask_below_screen(sprite, x, y, (k - 1) as nat, j);
    }
}

/// Drawing the same sprite twice at the same place gives memory back as it
/// was: each pixel is XOR-ed twice. This holds where the sprite lies below
/// the display region and neither coordinate register is VF, so that the
/// first draw changes neither the sprite nor its position.
pub proof fn lemma_draw_twice_restores(s: State, inst: Seq<u8>)
    requires
        s.wf(),
        wf_inst(inst),
        s.draw_fits(inst),
        s.i + inst[3] <= SCREEN_START,
        reg_x(inst) != 15,
        reg_y(inst) != 15,
    ensures
        s.drw_vx_vy_nibble(inst).drw_vx_vy_nibble(inst).ram == s.ram,
{
    lemma_xor_facts();
    let (x, y, n) = (s.vx(inst), s.vy(inst), inst[3] as nat);
    let sprite = s.sprite(inst);
    let s1 = s.drw_vx_vy_nibble(inst);
    lemma_draw_is_xor(s.ram, sprite, x, y, n);
    assert forall|j: int| 0 <= j < s.ram.len() && j < SCREEN_START implies s1.ram[j] == s.ram[j] by {
        lemma_mask_below_screen(sprite, x, y, n, j);
    }
    assert(s1.sprite(inst) =~= sprite);
    assert(s1.vx(inst) == x && s1.vy(inst) == y);
    lemma_draw_is_xor(s1.ram, sprite, x, y, n);
    let s2 = s1.drw_vx_vy_nibble(inst);
    assert forall|j: int| 0 <= j < s.ram.len() implies s2.ram[j] == s.ram[j] by {
        assert(s2.ram[j] == (s.ram[j] ^ draw_mask(sprite, x, y, n, j)) ^ draw_mask(sprite, x, y, n, j));
    }
    assert(s2.ram =~= s.ram);
}

impl State {
    /// The sprite of `DXYN`: N bytes from address I on.
    pub open spec fn sprite(self, inst: Seq<u8>) -> Seq<u8> {
        self.ram.subrange(self.i as int, self.i + inst[3])
    }

    /// Every byte that `DXYN` reads or writes lies in memory.
    pub open spec fn draw_fits(self, inst: Seq<u8>) -> bool {
        let (x, y, n) = (self.vx(inst), self.vy(inst), inst[3] as int);
        &&& self.i + n <= MEMORY_SIZE
        &&& n > 0 ==> first_index(x, y + n - 1) < MEMORY_SIZE
        &&& n > 0 ==> second_index(x, y + n - 1) < MEMORY_SIZE
    }

    /// `DXYN`: the sprite is XOR-ed onto the display; VF becomes 1 when a set
    /// pixel was cleared, else 0.
    pub open spec fn drw_vx_vy_nibble(self, inst: Seq<u8>) -> State {
        let (ram, hit) = draw_rows(
            self.ram,
            self.sprite(inst),
            self.vx(inst),
            self.vy(inst),
            inst[3] as nat,
        );
        State { ram: ram, ..self }.set_v(15, if hit { 1u8 } else { 0u8 })
    }
}

impl Computer {
    /// `00E0`: clears the display region.
    pub fn cls(&mut self)
        requires
            old(self).wf(),
        ensures
            final(self)@ == old(self)@.cls(),
    {
        let mut j: usize = SCREEN_START;
        while j < MEMORY_SIZE
            invariant
                SCREEN_START <= j <= MEMORY_SIZE,
                self.cpu == old(self).cpu,
                self.keyboard == old(self).keyboard,
                forall|k: int| 0 <= k < MEMORY_SIZE ==> #[trigger] self.ram[k] == (
                    if SCREEN_START <= k < j { 0u8 } else { old(self).ram[k] }),
            decreases MEMORY_SIZE - j,
        {
            self.ram[j] = 0;
            j = j + 1;
        }
        assert(self.ram@ =~= old(self)@.cls().ram);
    }

    /// `DXYN`: draws an N-byte sprite from address I at (VX, VY).
    pub fn drw_vx_vy_nibble(&mut self, inst: &[u8; 4])
        requires
            wf_inst(inst@),
            old(self).wf(),
            old(self)@.draw_fits(inst@),
        ensures
            final(self)@ == old(self)@.drw_vx_vy_nibble(inst@),
    {
        let x = self.cpu.v[inst[1] as usize];
        let y = self.cpu.v[inst[2] as usize];
        let n = inst[3] as usize;
        let start = self.cpu.i as usize;
        let mut sprite: Vec<u8> = Vec::new();
        let mut k: usize = 0;
        while k < n
            invariant
                k <= n,
                n == inst@[3],
                start == old(self).cpu.i,
                start + n <= MEMORY_SIZE,
                *self == *old(self),
                sprite@ == old(self)@.sprite(inst@).subrange(0, k as int),
            decreases n - k,
        {
            sprite.push(self.ram[start + k]);
            k = k + 1;
            assert(sprite@ =~= old(self)@.sprite(inst@).subrange(0, k as int));
        }
        assert(sprite@ =~= old(self)@.sprite(inst@));
        let off: u8 = x % 8;
        let mut collided = false;
        let ghost ram0 = self.ram@;
        k = 0;
        while k < n
            invariant
                k <= n,
                n == inst@[3],
                wf_inst(inst@),
                x == old(self)@.vx(inst@),
                y == old(self)@.vy(inst@),
                off == x % 8,
                ram0 == old(self).ram@,
                sprite@ == old(self)@.sprite(inst@),
                old(self)@.draw_fits(inst@),
                self.cpu == old(self).cpu,
                self.keyboard == old(self).keyboard,
                (self.ram@, collided) == draw_rows(ram0, sprite@, x, y, k as nat),
            decreases n - k,
        {
            let row = y as usize + k;
            let fi = SCREEN_START + row * 8 + (x / 8) as usize;
            let si = SCREEN_START + row * 8 + ((x / 8 + 1) % 8) as usize;
            let byte = sprite[k];
            let first = byte >> off;
            let second = if off == 0 { 0 } else { byte << (8 - off) };
            collided = collided || (first & self.ram[fi]) != 0;
            self.ram[fi] = self.ram[fi] ^ first;
            collided = collided || (second & self.ram[si]) != 0;
            self.ram[si] = self.ram[si] ^ second;
            k = k + 1;
        }
        self.cpu.v[15] = if collided { 1 } else { 0 };
    }
}

} // verus!
