//! Thirty-two byte account keys, held as four little-endian words.

use vstd::prelude::*;

verus! {

/// The byte of `w` at position `k` (0 is the least significant byte).
pub open spec fn word_byte(w: u64, k: u64) -> u8 {
    ((w >> (8 * k)) & 0xff) as u8
}

/// The little-endian word made of eight bytes.
pub open spec fn pack_word(b0: u8, b1: u8, b2: u8, b3: u8, b4: u8, b5: u8, b6: u8, b7: u8) -> u64 {
    (b0 as u64) | ((b1 as u64) << 8) | ((b2 as u64) << 16) | ((b3 as u64) << 24) | ((b4 as u64)
        << 32) | ((b5 as u64) << 40) | ((b6 as u64) << 48) | ((b7 as u64) << 56)
}

proof fn lemma_pack_word(b0: u8, b1: u8, b2: u8, b3: u8, b4: u8, b5: u8, b6: u8, b7: u8)
    ensures
        word_byte(pack_word(b0, b1, b2, b3, b4, b5, b6, b7), 0) == b0,
        word_byte(pack_word(b0, b1, b2, b3, b4, b5, b6, b7), 1) == b1,
        word_byte(pack_word(b0, b1, b2, b3, b4, b5, b6, b7), 2) == b2,
        word_byte(pack_word(b0, b1, b2, b3, b4, b5, b6, b7), 3) == b3,
        word_byte(pack_word(b0, b1, b2, b3, b4, b5, b6, b7), 4) == b4,
        word_byte(pack_word(b0, b1, b2, b3, b4, b5, b6, b7), 5) == b5,
        word_byte(pack_word(b0, b1, b2, b3, b4, b5, b6, b7), 6) == b6,
        word_byte(pack_word(b0, b1, b2, b3, b4, b5, b6, b7), 7) == b7,
{
    assert(word_byte(pack_word(b0, b1, b2, b3, b4, b5, b6, b7), 0) == b0) by (bit_vector);
    assert(word_byte(pack_word(b0, b1, b2, b3, b4, b5, b6, b7), 1) == b1) by (bit_vector);
    assert(word_byte(pack_word(b0, b1, b2, b3, b4, b5, b6, b7), 2) == b2) by (bit_vector);
    assert(word_byte(pack_word(b0, b1, b2, b3, b4, b5, b6, b7), 3) == b3) by (bit_vector);
    assert(word_byte(pack_word(b0, b1, b2, b3, b4, b5, b6, b7), 4) == b4) by (bit_vector);
    assert(word_byte(pack_word(b0, b1, b2, b3, b4, b5, b6, b7), 5) == b5) by (bit_vector);
    assert(word_byte(pack_word(b0, b1, b2, b3, b4, b5, b6, b7), 6) == b6) by (bit_vector);
    assert(word_byte(pack_word(b0, b1, b2, b3, b4, b5, b6, b7), 7) == b7) by (bit_vector);
}

proof fn lemma_unpack_word(w: u64)
    ensures
        pack_word(
            word_byte(w, 0),
            word_byte(w, 1),
            word_byte(w, 2),
            word_byte(w, 3),
            word_byte(w, 4),
            word_byte(w, 5),
            word_byte(w, 6),
            word_byte(w, 7),
        ) == w,
{
    assert(pack_word(
        word_byte(w, 0),
        word_byte(w, 1),
        word_byte(w, 2),
        word_byte(w, 3),
        word_byte(w, 4),
        word_byte(w, 5),
        word_byte(w, 6),
        word_byte(w, 7),
    ) == w) by (bit_vector);
}

/// The public key of an account: 32 bytes.
#[derive(Clone, Copy, Debug, PartialEq, Eq, Structural)]
pub struct Pubkey {
    w0: u64,
    w1: u64,
    w2: u64,
    w3: u64,
}

impl Pubkey {
    /// The word of this key that holds byte `i`.
    pub closed spec fn word(self, i: int) -> u64 {
        if i < 8 {
            self.w0
        } else if i < 16 {
            self.w1
        } else if i < 24 {
            self.w2
        } else {
            self.w3
        }
    }

    /// The 32 bytes of the key.
    pub closed spec fn bytes(self) -> Seq<u8> {
        Seq::new(32, |i: int| word_byte(self.word(i), (i % 8) as u64))
    }
}

impl View for Pubkey {
    type V = Seq<u8>;

    open spec fn view(&self) -> Seq<u8> {
        self.bytes()
    }
}

impl Pubkey {
    /// The key made of the given 32 bytes.
    pub fn new_from_array(b: [u8; 32]) -> (key: Pubkey)
        ensures
            key@ == b@,
    {
        let key = Pubkey {
            w0: b[0] as u64 | (b[1] as u64) << 8u64 | (b[2] as u64) << 16u64 | (b[3] as u64) << 24u64
                | (b[4] as u64) << 32u64 | (b[5] as u64) << 40u64 | (b[6] as u64) << 48u64
                | (b[7] as u64) << 56u64,
            w1: b[8] as u64 | (b[9] as u64) << 8u64 | (b[10] as u64) << 16u64 | (b[11] as u64)
                << 24u64 | (b[12] as u64) << 32u64 | (b[13] as u64) << 40u64 | (b[14] as u64)
                << 48u64 | (b[15] as u64) << 56u64,
            w2: b[16] as u64 | (b[17] as u64) << 8u64 | (b[18] as u64) << 16u64 | (b[19] as u64)
                << 24u64 | (b[20] as u64) << 32u64 | (b[21] as u64) << 40u64 | (b[22] as u64)
                << 48u64 | (b[23] as u64) << 56u64,
            w3: b[24] as u64 | (b[25] as u64) << 8u64 | (b[26] as u64) << 16u64 | (b[27] as u64)
                << 24u64 | (b[28] as u64) << 32u64 | (b[29] as u64) << 40u64 | (b[30] as u64)
                << 48u64 | (b[31] as u64) << 56u64,
        };
        proof {
            lemma_pack_word(b[0], b[1], b[2], b[3], b[4], b[5], b[6], b[7]);
            lemma_pack_word(b[8], b[9], b[10], b[11], b[12], b[13], b[14], b[15]);
            lemma_pack_word(b[16], b[17], b[18], b[19], b[20], b[21], b[22], b[23]);
            lemma_pack_word(b[24], b[25], b[26], b[27], b[28], b[29], b[30], b[31]);
            assert(key@ =~= b@);
        }
        key
    }
}

impl Pubkey {
    /// The 32 bytes of this key.
    pub fn to_bytes(&self) -> (b: [u8; 32])
        ensures
            b@ == self@,
    {
        let b: [u8; 32] = [
            (self.w0 & 0xff) as u8, (self.w0 >> 8u64 & 0xff) as u8, (self.w0 >> 16u64 & 0xff) as u8,
            (self.w0 >> 24u64 & 0xff) as u8, (self.w0 >> 32u64 & 0xff) as u8, (self.w0 >> 40u64
            & 0xff) as u8, (self.w0 >> 48u64 & 0xff) as u8, (self.w0 >> 56u64 & 0xff) as u8,
            (self.w1 & 0xff) as u8, (self.w1 >> 8u64 & 0xff) as u8, (self.w1 >> 16u64 & 0xff) as u8,
            (self.w1 >> 24u64 & 0xff) as u8, (self.w1 >> 32u64 & 0xff) as u8, (self.w1 >> 40u64
            & 0xff) as u8, (self.w1 >> 48u64 & 0xff) as u8, (self.w1 >> 56u64 & 0xff) as u8,
            (self.w2 & 0xff) as u8, (self.w2 >> 8u64 & 0xff) as u8, (self.w2 >> 16u64 & 0xff) as u8,
            (self.w2 >> 24u64 & 0xff) as u8, (self.w2 >> 32u64 & 0xff) as u8, (self.w2 >> 40u64
            & 0xff) as u8, (self.w2 >> 48u64 & 0xff) as u8, (self.w2 >> 56u64 & 0xff) as u8,
            (self.w3 & 0xff) as u8, (self.w3 >> 8u64 & 0xff) as u8, (self.w3 >> 16u64 & 0xff) as u8,
            (self.w3 >> 24u64 & 0xff) as u8, (self.w3 >> 32u64 & 0xff) as u8, (self.w3 >> 40u64
            & 0xff) as u8, (self.w3 >> 48u64 & 0xff) as u8, (self.w3 >> 56u64 & 0xff) as u8,
        ];
        proof {
            let w0 = self.w0;
            assert((w0 & 0xff) as u8 == word_byte(w0, 0)) by (bit_vector);
            let w1 = self.w1;
            assert((w1 & 0xff) as u8 == word_byte(w1, 0)) by (bit_vector);
            let w2 = self.w2;
            assert((w2 & 0xff) as u8 == word_byte(w2, 0)) by (bit_vector);
            let w3 = self.w3;
            assert((w3 & 0xff) as u8 == word_byte(w3, 0)) by (bit_vector);
            assert(b@ =~= self@);
        }
        b
    }
}

impl Pubkey {
    /// The all-zero key.
    pub closed spec fn zero() -> Pubkey {
        Pubkey { w0: 0, w1: 0, w2: 0, w3: 0 }
    }
}

impl Default for Pubkey {
    /// The all-zero key.
    fn default() -> (key: Pubkey)
        ensures
            key == Pubkey::zero(),
            key@ == Seq::new(32, |i: int| 0u8),
    {
        let key = Pubkey { w0: 0, w1: 0, w2: 0, w3: 0 };
        proof {
            assert(forall|k: u64| k < 8 ==> #[trigger] word_byte(0u64, k) == 0) by (bit_vector);
            assert(key@ =~= Seq::new(32, |i: int| 0u8));
        }
        key
    }
}

/// Two keys are equal exactly when their bytes are.
pub proof fn lemma_key_bytes_determine_key(p: Pubkey, q: Pubkey)
    ensures
        p@ == q@ <==> p == q,
{
    if p@ == q@ {
        assert forall|k: u64| k < 8 implies #[trigger] word_byte(p.w0, k) == word_byte(q.w0, k) by {
            assert(p@[0 + k] == q@[0 + k]);
        }
        assert forall|k: u64| k < 8 implies #[trigger] word_byte(p.w1, k) == word_byte(q.w1, k) by {
            assert(p@[8 + k] == q@[8 + k]);
        }
        assert forall|k: u64| k < 8 implies #[trigger] word_byte(p.w2, k) == word_byte(q.w2, k) by {
            assert(p@[16 + k] == q@[16 + k]);
        }
        assert forall|k: u64| k < 8 implies #[trigger] word_byte(p.w3, k) == word_byte(q.w3, k) by {
            assert(p@[24 + k] == q@[24 + k]);
        }
        lemma_unpack_word(p.w0);
        lemma_unpack_word(q.w0);
        lemma_unpack_word(p.w1);
        lemma_unpack_word(q.w1);
        lemma_unpack_word(p.w2);
        lemma_unpack_word(q.w2);
        lemma_unpack_word(p.w3);
        lemma_unpack_word(q.w3);
    }
}

} // verus!
