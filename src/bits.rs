use vstd::prelude::*;
use vstd::string::StringSliceAdditionalSpecFns;

verus! {

/// The characters of a pattern string that carry bits: all but `_` and spaces.
pub open spec fn pattern_chars(b: Seq<u8>) -> Seq<u8>
    decreases b.len(),
{
    if b.len() == 0 {
        b
    } else if b.last() == 0x5f || b.last() == 0x20 {
        pattern_chars(b.drop_last())
    } else {
        pattern_chars(b.drop_last()).push(b.last())
    }
}

/// Whether `c` is one of `0`, `1` and `x`.
pub open spec fn is_pattern_char(c: u8) -> bool {
    c == 0x30 || c == 0x31 || c == 0x78
}

/// Required bits of pattern characters `cs`, most significant first: a bit
/// for each `0` or `1`.
pub open spec fn mask_of(cs: Seq<u8>) -> nat
    decreases cs.len(),
{
    if cs.len() == 0 {
        0
    } else {
        2 * mask_of(cs.drop_last()) + if cs.last() == 0x78 { 0nat } else { 1nat }
    }
}

/// Values of the required bits of `cs`: a bit for each `1`.
pub open spec fn value_of(cs: Seq<u8>) -> nat
    decreases cs.len(),
{
    if cs.len() == 0 {
        0
    } else {
        2 * value_of(cs.drop_last()) + if cs.last() == 0x31 { 1nat } else { 0nat }
    }
}

/// Whether pattern string `b` is well formed: 32 characters from `0`, `1`
/// and `x` once `_` and spaces are left out.
pub open spec fn well_formed(b: Seq<u8>) -> bool {
    &&& pattern_chars(b).len() == 32
    &&& forall|i: int| 0 <= i < 32 ==> is_pattern_char(#[trigger] pattern_chars(b)[i])
}

/// A template over 32-bit words: bits set in `mask` must equal those of `value`.
#[derive(Debug, Clone, Copy, PartialEq, Eq, Structural)]
pub struct BitPattern {
    pub mask: u32,
    pub value: u32,
}

proof fn lemma_mask_bound(cs: Seq<u8>)
    ensures
        mask_of(cs) < vstd::arithmetic::power2::pow2(cs.len()),
        value_of(cs) <= mask_of(cs),
    decreases cs.len(),
{
    if cs.len() == 0 {
        vstd::arithmetic::power2::lemma2_to64();
    } else {
        lemma_mask_bound(cs.drop_last());
        vstd::arithmetic::power2::lemma_pow2_unfold(cs.len());
    }
}

impl BitPattern {
    pub open spec fn spec_matches(self, w: u32) -> bool {
        w & self.mask == self.value
    }

    /// Whether word `w` has every required bit.
    pub fn matches(&self, w: u32) -> (r: bool)
        ensures
            r == self.spec_matches(w),
    {
        w & self.mask == self.value
    }

    /// Reads a pattern written most significant bit first, `1` and `0` for
    /// required bits and `x` for any; `_` and spaces only separate. `None`
    /// when the string is not well formed.
    pub fn parse(s: &str) -> (r: Option<BitPattern>)
        ensures
            well_formed(s.spec_bytes()) ==> r == Some(
                BitPattern {
                    mask: mask_of(pattern_chars(s.spec_bytes())) as u32,
                    value: value_of(pattern_chars(s.spec_bytes())) as u32,
                },
            ),
            !well_formed(s.spec_bytes()) ==> r is None,
    {
        let b = s.as_bytes();
        let ghost all = b@;
        let mut mask: u64 = 0;
        let mut value: u64 = 0;
        let mut count: usize = 0;
        let mut i: usize = 0;
        while i < b.len()
            invariant
                all == b@,
                all == s.spec_bytes(),
                i <= all.len(),
                count == pattern_chars(all.subrange(0, i as int)).len(),
                count <= 32,
                forall|k: int| 0 <= k < count ==> is_pattern_char(#[trigger] pattern_chars(all.subrange(0, i as int))[k]),
                mask == mask_of(pattern_chars(all.subrange(0, i as int))),
                value == value_of(pattern_chars(all.subrange(0, i as int))),
            decreases all.len() - i,
        {
            let ghost pre = all.subrange(0, i as int);
            let ghost next = all.subrange(0, i + 1);
            assert(next.drop_last() =~= pre);
            proof {
                lemma_mask_bound(pattern_chars(pre));
                vstd::arithmetic::power2::lemma2_to64();
                if count < 32 {
                    vstd::arithmetic::power2::lemma_pow2_strictly_increases(count as nat, 32);
                }
                assert(mask < 0x1_0000_0000);
            }
            let c = b[i];
            if c == 0x5f || c == 0x20 {
                assert(next.last() == c);
                assert(pattern_chars(next) == pattern_chars(pre));
            } else if c == 0x30 || c == 0x31 || c == 0x78 {
                assert(next.last() == c);
                assert(pattern_chars(next).len() == count + 1);
                if count == 32 {
                    proof {
                        lemma_prefix_grows(all, i as int + 1);
                    }
                    return None;
                }
                assert(pattern_chars(next) == pattern_chars(pre).push(c));
                assert(pattern_chars(pre).push(c).drop_last() =~= pattern_chars(pre));
                mask = 2 * mask + if c == 0x78 { 0 } else { 1 };
                value = 2 * value + if c == 0x31 { 1 } else { 0 };
                count = count + 1;
                assert(pattern_chars(next).last() == c);
            } else {
                proof {
                    lemma_bad_char_stays(all, i as int);
                }
                return None;
            }
            i = i + 1;
        }
        assert(all.subrange(0, all.len() as int) =~= all);
        if count != 32 {
            return None;
        }
        proof {
            lemma_mask_bound(pattern_chars(all));
            vstd::arithmetic::power2::lemma2_to64();
        }
        Some(BitPattern { mask: mask as u32, value: value as u32 })
    }
}

proof fn lemma_prefix_grows(b: Seq<u8>, i: int)
    requires
        0 <= i <= b.len(),
    ensures
        pattern_chars(b.subrange(0, i)).len() <= pattern_chars(b).len(),
        forall|k: int| 0 <= k < pattern_chars(b.subrange(0, i)).len() ==> #[trigger] pattern_chars(b)[k] == pattern_chars(b.subrange(0, i))[k],
    decreases b.len() - i,
{
    if i < b.len() {
        let next = b.subrange(0, i + 1);
        assert(next.drop_last() =~= b.subrange(0, i));
        lemma_prefix_grows(b, i + 1);
    } else {
        assert(b.subrange(0, i) =~= b);
    }
}

proof fn lemma_bad_char_stays(b: Seq<u8>, i: int)
    requires
        0 <= i < b.len(),
        !is_pattern_char(b[i]),
        b[i] != 0x5f && b[i] != 0x20,
    ensures
        !well_formed(b),
{
    let next = b.subrange(0, i + 1);
    assert(next.drop_last() =~= b.subrange(0, i));
    assert(next.last() == b[i]);
    lemma_prefix_grows(b, i + 1);
    let k = pattern_chars(next).len() - 1;
    assert(pattern_chars(next)[k] == b[i]);
    if well_formed(b) {
        assert(pattern_chars(b)[k] == b[i]);
    }
}

/// The handler of the first rule among `rules` whose pattern `w` matches.
pub open spec fn first_match<T>(rules: Seq<(BitPattern, T)>, w: u32) -> Option<T>
    decreases rules.len(),
{
    if rules.len() == 0 {
        None
    } else if rules[0].0.spec_matches(w) {
        Some(rules[0].1)
    } else {
        first_match(rules.drop_first(), w)
    }
}

/// Rules from bit patterns to handlers, tried in the order they were bound.
pub struct BitPatternMatcher<T> {
    pub rules: Vec<(BitPattern, T)>,
}

impl<T: Copy> BitPatternMatcher<T> {
    pub fn new() -> (r: Self)
        ensures
            r.rules@.len() == 0,
    {
        BitPatternMatcher { rules: Vec::new() }
    }

    /// Adds a rule after the others; a pattern string that is not well
    /// formed is refused and leaves the matcher as it was.
    pub fn bind(&mut self, pattern: &str, handler: T) -> (r: bool)
        ensures
            r == well_formed(pattern.spec_bytes()),
            r ==> final(self).rules@ == old(self).rules@.push(
                (
                    BitPattern {
                        mask: mask_of(pattern_chars(pattern.spec_bytes())) as u32,
                        value: value_of(pattern_chars(pattern.spec_bytes())) as u32,
                    },
                    handler,
                ),
            ),
            !r ==> final(self).rules@ == old(self).rules@,
    {
        match BitPattern::parse(pattern) {
            Some(p) => {
                self.rules.push((p, handler));
                true
            },
            None => false,
        }
    }

    /// The handler of the first rule that `w` matches.
    pub fn handle(&self, w: u32) -> (r: Option<T>)
        ensures
            r == first_match(self.rules@, w),
    {
        let mut i: usize = 0;
        assert(self.rules@.subrange(0, self.rules@.len() as int) =~= self.rules@);
        while i < self.rules.len()
            invariant
                i <= self.rules@.len(),
                first_match(self.rules@, w) == first_match(self.rules@.subrange(i as int, self.rules@.len() as int), w),
            decreases self.rules@.len() - i,
        {
            let ghost rest = self.rules@.subrange(i as int, self.rules@.len() as int);
            assert(rest.drop_first() =~= self.rules@.subrange(i + 1, self.rules@.len() as int));
            if self.rules[i].0.matches(w) {
                return Some(self.rules[i].1);
            }
            i = i + 1;
        }
        None
    }
}

/// Bits `lo..hi` of `w`, moved down to bit 0.
pub fn extract_bits(w: u32, lo: u32, hi: u32) -> (r: u32)
    requires
        lo < hi <= 32,
    ensures
        r as int == (w as int / vstd::arithmetic::power2::pow2(lo as nat) as int) % vstd::arithmetic::power2::pow2((hi - lo) as nat) as int,
{
    let shifted = w >> lo;
    let width = hi - lo;
    proof {
        vstd::bits::lemma_u32_shr_is_div(w, lo);
    }
    if width == 32 {
        proof {
            vstd::arithmetic::power2::lemma2_to64();
            vstd::arithmetic::div_mod::lemma_small_mod(shifted as nat, 0x1_0000_0000);
        }
        shifted
    } else {
        proof {
            vstd::arithmetic::power2::lemma2_to64();
            vstd::bits::lemma_u32_pow2_no_overflow(width as nat);
            vstd::bits::lemma_u64_shl_is_mul(1, width as u64);
            vstd::bits::lemma_u32_low_bits_mask_is_mod(shifted, width as nat);
        }
        let m = ((1u64 << (width as u64)) - 1) as u32;
        shifted & m
    }
}

} // verus!
