//! Regrouping of a raw capture byte stream into four-byte sample words.
//!
//! A capture device delivers bytes in runs of any length; a 32-bit sample may
//! be split across two runs. The framer keeps the bytes of an incomplete
//! sample until the rest arrives.
use vstd::prelude::*;

verus! {

/// Bytes in one 32-bit sample.
pub const SAMPLE_BYTES: usize = 4;

/// The `i`-th four-byte word of a byte stream.
pub open spec fn word_at(bytes: Seq<u8>, i: int) -> Seq<u8> {
    bytes.subrange(4 * i, 4 * i + 4)
}

/// Number of complete words in a byte stream.
pub open spec fn word_count(bytes: Seq<u8>) -> nat {
    bytes.len() / 4
}

pub struct SampleFramer {
    pending: Vec<u8>,
}

impl SampleFramer {
    /// The bytes of the incomplete sample held back.
    pub closed spec fn view(&self) -> Seq<u8> {
        self.pending@
    }

    pub closed spec fn wf(&self) -> bool {
        self.pending@.len() < 4
    }

    pub fn new() -> (r: Self)
        ensures
            r.wf(),
            r@ == Seq::<u8>::empty(),
    {
        SampleFramer { pending: Vec::new() }
    }

    /// Number of bytes held back.
    pub fn pending(&self) -> (r: usize)
        ensures
            r == self@.len(),
    {
        self.pending.len()
    }

    /// Appends a run of bytes and returns every sample word completed, in
    /// stream order; the bytes of a trailing incomplete word are kept.
    pub fn push_bytes(&mut self, bytes: &Vec<u8>) -> (r: Vec<[u8; 4]>)
        requires
            old(self).wf(),
        ensures
            final(self).wf(),
            ({
                let c = old(self)@ + bytes@;
                &&& r@.len() == word_count(c)
                &&& forall|i: int| 0 <= i < r@.len() ==> (#[trigger] r@[i])@ == word_at(c, i)
                &&& final(self)@ == c.subrange((4 * word_count(c)) as int, c.len() as int)
            }),
    {
        let ghost c = self@ + bytes@;
        let ghost start = self@.len();
        proof {
            assert(c.subrange(0, start as int) =~= self@);
        }
        let mut out: Vec<[u8; 4]> = Vec::new();
        let mut i: usize = 0;
        while i < bytes.len()
            invariant
                c == old(self)@ + bytes@,
                start == old(self)@.len(),
                start < 4,
                0 <= i <= bytes@.len(),
                self.pending@.len() < 4,
                4 * out@.len() + self.pending@.len() == start + i,
                self.pending@ == c.subrange((4 * out@.len()) as int, (start + i) as int),
                forall|k: int| 0 <= k < out@.len() ==> (#[trigger] out@[k])@ == word_at(c, k),
            decreases bytes@.len() - i,
        {
            let b = bytes[i];
            let ghost n = out@.len();
            proof {
                assert(c[start + i] == b);
            }
            self.pending.push(b);
            proof {
                assert(self.pending@ =~= c.subrange((4 * n) as int, (start + i + 1) as int));
            }
            if self.pending.len() == SAMPLE_BYTES {
                let word: [u8; 4] = [self.pending[0], self.pending[1], self.pending[2], self.pending[3]];
                proof {
                    assert(word@ =~= word_at(c, n as int));
                }
                out.push(word);
                self.pending = Vec::new();
                proof {
                    assert(self.pending@ =~= c.subrange((4 * out@.len()) as int, (start + i + 1) as int));
                }
            }
            i = i + 1;
        }
        proof {
            let m = start + bytes@.len();
            assert(m == c.len());
            vstd::arithmetic::div_mod::lemma_fundamental_div_mod(m as int, 4);
            assert(out@.len() == m / 4);
        }
        out
    }
}

} // verus!
