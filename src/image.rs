use vstd::prelude::*;

verus! {

/// Where a section lies: its virtual address and its byte range in the image.
#[derive(Debug, Clone, Copy, PartialEq, Eq, Structural)]
pub struct Section {
    pub sec_addr: u64,
    pub beg: usize,
    pub end: usize,
}

/// A loaded executable: the file bytes and its named sections.
pub struct Image {
    pub image: Vec<u8>,
    /// Sections in the order they were added; a later entry with the same
    /// name replaces an earlier one.
    pub sections: Vec<(String, Section)>,
}

/// The section named `n` among `secs`: the last entry with that name.
pub open spec fn lookup(secs: Seq<(String, Section)>, n: Seq<char>) -> Option<Section>
    decreases secs.len(),
{
    if secs.len() == 0 {
        None
    } else if secs.last().0@ == n {
        Some(secs.last().1)
    } else {
        lookup(secs.drop_last(), n)
    }
}

/// Whether entry `i` of `secs` is replaced by a later entry with its name.
pub open spec fn shadowed(secs: Seq<(String, Section)>, i: int) -> bool {
    exists|j: int| i < j < secs.len() && #[trigger] secs[j].0@ == secs[i].0@
}

proof fn lemma_lookup_found(secs: Seq<(String, Section)>, n: Seq<char>)
    requires
        lookup(secs, n) is Some,
    ensures
        exists|i: int| 0 <= i < secs.len() && secs[i].0@ == n && !shadowed(secs, i) && secs[i].1 == lookup(secs, n)->0,
    decreases secs.len(),
{
    let k = secs.len() - 1;
    if secs.last().0@ != n {
        lemma_lookup_found(secs.drop_last(), n);
        let i = choose|i: int| 0 <= i < secs.drop_last().len() && secs.drop_last()[i].0@ == n && !shadowed(secs.drop_last(), i)
            && secs.drop_last()[i].1 == lookup(secs.drop_last(), n)->0;
        assert(secs[i] == secs.drop_last()[i]);
        assert(!shadowed(secs, i)) by {
            if shadowed(secs, i) {
                let j = choose|j: int| i < j < secs.len() && #[trigger] secs[j].0@ == secs[i].0@;
                if j < k {
                    assert(secs.drop_last()[j] == secs[j]);
                    assert(shadowed(secs.drop_last(), i));
                }
            }
        }
        assert(lookup(secs, n) == lookup(secs.drop_last(), n));
        assert(0 <= i < secs.len() && secs[i].0@ == n && !shadowed(secs, i) && secs[i].1 == lookup(secs, n)->0);
    } else {
        assert(secs[k].0@ == n);
        assert(!shadowed(secs, k));
        assert(secs[k].1 == lookup(secs, n)->0);
    }
}

proof fn lemma_lookup_unshadowed(secs: Seq<(String, Section)>, i: int)
    requires
        0 <= i < secs.len(),
        !shadowed(secs, i),
    ensures
        lookup(secs, secs[i].0@) == Some(secs[i].1),
    decreases secs.len(),
{
    let k = secs.len() - 1;
    if i < k {
        assert(secs[k].0@ != secs[i].0@);
        assert(!shadowed(secs.drop_last(), i)) by {
            if shadowed(secs.drop_last(), i) {
                let j = choose|j: int| i < j < secs.drop_last().len() && #[trigger] secs.drop_last()[j].0@
                    == secs.drop_last()[i].0@;
                assert(secs[j] == secs.drop_last()[j]);
            }
        }
        lemma_lookup_unshadowed(secs.drop_last(), i);
    }
}

impl Image {
    pub open spec fn wf(&self) -> bool {
        forall|i: int|
            0 <= i < self.sections@.len() ==> #[trigger] self.sections@[i].1.beg <= self.sections@[i].1.end
                <= self.image@.len()
    }

    /// The section named `n`.
    pub open spec fn section(&self, n: Seq<char>) -> Option<Section> {
        lookup(self.sections@, n)
    }

    /// An image of `image` without sections.
    pub fn from_image(image: Vec<u8>) -> (r: Self)
        ensures
            r.wf(),
            r.image@ == image@,
            forall|n: Seq<char>| r.section(n) is None,
    {
        Image { image, sections: Vec::new() }
    }

    /// Adds section `sec_name` at address `sec_addr` with bytes `beg..end` of
    /// the image, replacing a section of that name.
    pub fn add_section(&mut self, sec_name: &str, sec_addr: u64, beg: usize, end: usize)
        requires
            old(self).wf(),
            beg <= end <= old(self).image@.len(),
        ensures
            final(self).wf(),
            final(self).image@ == old(self).image@,
            forall|n: Seq<char>|
                #[trigger] final(self).section(n) == if n == sec_name@ {
                    Some(Section { sec_addr, beg, end })
                } else {
                    old(self).section(n)
                },
    {
        let name = sec_name.to_owned();
        self.sections.push((name, Section { sec_addr, beg, end }));
        assert(self.sections@.drop_last() =~= old(self).sections@);
    }

    /// The names of the sections.
    pub fn sections(&self) -> (r: Vec<String>)
        ensures
            forall|i: int| 0 <= i < r@.len() ==> #[trigger] self.section(r@[i]@) is Some,
            forall|n: Seq<char>| #[trigger] self.section(n) is Some ==> exists|i: int| 0 <= i < r@.len() && r@[i]@ == n,
            forall|i: int, j: int| 0 <= i < j < r@.len() ==> r@[i]@ != r@[j]@,
    {
        let ghost secs = self.sections@;
        let ghost mut origin: Seq<int> = Seq::empty();
        let mut r: Vec<String> = Vec::new();
        let mut i: usize = 0;
        while i < self.sections.len()
            invariant
                secs == self.sections@,
                i <= secs.len(),
                origin.len() == r@.len(),
                forall|k: int|
                    0 <= k < r@.len() ==> 0 <= #[trigger] origin[k] < i && !shadowed(secs, origin[k]) && r@[k]@
                        == secs[origin[k]].0@,
                forall|m: int| 0 <= m < i && !shadowed(secs, m) ==> exists|k: int| 0 <= k < r@.len() && r@[k]@ == secs[m].0@,
                forall|k1: int, k2: int| 0 <= k1 < k2 < r@.len() ==> r@[k1]@ != r@[k2]@,
            decreases secs.len() - i,
        {
            let ghost before = r@;
            let mut later = false;
            let mut j: usize = i + 1;
            while j < self.sections.len()
                invariant
                    secs == self.sections@,
                    i < j <= secs.len(),
                    later == exists|q: int| i < q < j && #[trigger] secs[q].0@ == secs[i as int].0@,
                decreases secs.len() - j,
            {
                if self.sections[j].0.eq(&self.sections[i].0) {
                    later = true;
                }
                j = j + 1;
            }
            if !later {
                assert(!shadowed(secs, i as int));
                r.push(self.sections[i].0.clone());
                proof {
                    origin = origin.push(i as int);
                    assert forall|k1: int, k2: int| 0 <= k1 < k2 < r@.len() implies r@[k1]@ != r@[k2]@ by {
                        assert(r@[k1] == before[k1]);
                        if k2 == r@.len() - 1 {
                            let m = origin[k1];
                            if r@[k1]@ == r@[k2]@ {
                                assert(secs[i as int].0@ == secs[m].0@);
                                assert(shadowed(secs, m));
                            }
                        } else {
                            assert(r@[k2] == before[k2]);
                        }
                    }
                    assert forall|k: int| 0 <= k < r@.len() implies 0 <= #[trigger] origin[k] < i + 1 && !shadowed(
                        secs,
                        origin[k],
                    ) && r@[k]@ == secs[origin[k]].0@ by {
                        if k < before.len() {
                            assert(r@[k] == before[k]);
                        }
                    }
                }
            }
            assert forall|m: int| 0 <= m < i + 1 && !shadowed(secs, m) implies exists|k: int| 0 <= k < r@.len() && r@[k]@ == secs[m].0@ by {
                if m == i {
                    assert(r@[r@.len() - 1]@ == secs[i as int].0@);
                } else {
                    let k = choose|k: int| 0 <= k < before.len() && before[k]@ == secs[m].0@;
                    assert(r@[k] == before[k]);
                }
            }
            i = i + 1;
        }
        proof {
            assert forall|k: int| 0 <= k < r@.len() implies #[trigger] lookup(secs, r@[k]@) is Some by {
                lemma_lookup_unshadowed(secs, origin[k]);
            }
            assert forall|n: Seq<char>| #[trigger] lookup(secs, n) is Some implies exists|k: int| 0 <= k < r@.len() && r@[k]@ == n by {
                lemma_lookup_found(secs, n);
            }
        }
        r
    }

    /// The virtual address of section `name`.
    pub fn section_addr(&self, name: &str) -> (r: u64)
        requires
            self.section(name@) is Some,
        ensures
            r == self.section(name@)->0.sec_addr,
    {
        let sec = self.find(name);
        sec.sec_addr
    }

    /// The bytes of section `name`.
    pub fn section_data(&self, name: &str) -> (r: &[u8])
        requires
            self.wf(),
            self.section(name@) is Some,
        ensures
            r@ == self.image@.subrange(self.section(name@)->0.beg as int, self.section(name@)->0.end as int),
    {
        let sec = self.find(name);
        proof {
            lemma_lookup_found(self.sections@, name@);
        }
        vstd::slice::slice_subrange(self.image.as_slice(), sec.beg, sec.end)
    }

    fn find(&self, name: &str) -> (r: Section)
        requires
            self.section(name@) is Some,
        ensures
            r == self.section(name@)->0,
    {
        let key = name.to_owned();
        let ghost secs = self.sections@;
        assert(secs.subrange(0, secs.len() as int) =~= secs);
        let mut i: usize = self.sections.len();
        while i > 0
            invariant
                secs == self.sections@,
                i <= secs.len(),
                lookup(secs, name@) == lookup(secs.subrange(0, i as int), name@),
                lookup(secs, name@) is Some,
                key@ == name@,
            decreases i,
        {
            let ghost pre = secs.subrange(0, i as int);
            assert(pre.drop_last() =~= secs.subrange(0, i - 1));
            assert(pre.last() == secs[i - 1]);
            let same = self.sections[i - 1].0.eq(&key);
            if same {
                assert(lookup(pre, name@) == Some(secs[i - 1].1));
                return self.sections[i - 1].1;
            }
            assert(lookup(pre, name@) == lookup(pre.drop_last(), name@));
            i = i - 1;
        }
        assert(secs.subrange(0, 0) =~= Seq::<(String, Section)>::empty());
        self.sections[0].1
    }
}

} // verus!
