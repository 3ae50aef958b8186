use vstd::prelude::*;

verus! {

/// One tracked issue: a title, ordered description lines, and tag labels.
///
/// The tags behave as a set: [`Tissue::tag`] never inserts a label twice,
/// so a well-formed tissue holds no duplicate tags.
#[derive(Debug, PartialEq)]
pub struct Tissue {
    pub title: String,
    pub description: Vec<String>,
    pub tags: Vec<String>,
}

/// The mathematical value of a [`Tissue`]: each text as its sequence of
/// characters.
#[verifier::ext_equal]
pub struct TissueView {
    pub title: Seq<char>,
    pub description: Seq<Seq<char>>,
    pub tags: Seq<Seq<char>>,
}

impl View for Tissue {
    type V = TissueView;

    open spec fn view(&self) -> TissueView {
        TissueView {
            title: self.title@,
            description: self.description.deep_view(),
            tags: self.tags.deep_view(),
        }
    }
}

/// No label occurs twice.
pub open spec fn tags_unique(tags: Seq<Seq<char>>) -> bool {
    forall|i: int, j: int| 0 <= i < j < tags.len() ==> tags[i] != tags[j]
}

/// The views of a sequence of issues.
pub open spec fn views_of(ts: Seq<Tissue>) -> Seq<TissueView> {
    ts.map_values(|t: Tissue| t@)
}

/// Issues `before` and `after` agree but for duplicate tags dropped.
pub open spec fn normalized(before: TissueView, after: TissueView) -> bool {
    &&& after.wf()
    &&& after.title == before.title
    &&& after.description == before.description
    &&& forall|s: Seq<char>| after.tags.contains(s) <==> before.tags.contains(s)
}

/// Whether `v` holds a string equal to `s`.
pub fn contains_string(v: &Vec<String>, s: &String) -> (r: bool)
    ensures
        r == v.deep_view().contains(s@),
{
    let n = v.len();
    let mut i: usize = 0;
    while i < n
        invariant
            n == v.len(),
            i <= n,
            forall|k: int| 0 <= k < i ==> v.deep_view()[k] != s@,
        decreases n - i,
    {
        if v[i] == *s {
            proof {
                assert(v.deep_view()[i as int] == s@);
            }
            return true;
        }
        i += 1;
    }
    proof {
        assert(!v.deep_view().contains(s@));
    }
    false
}

impl TissueView {
    /// Well-formedness: the tags form a set.
    pub open spec fn wf(&self) -> bool {
        tags_unique(self.tags)
    }
}

impl Tissue {
    /// An issue that has just been created: a title and nothing else.
    pub fn new(title: String) -> (r: Tissue)
        ensures
            r@.title == title@,
            r@.description == Seq::<Seq<char>>::empty(),
            r@.tags == Seq::<Seq<char>>::empty(),
            r@.wf(),
    {
        let r = Tissue { title, description: Vec::new(), tags: Vec::new() };
        proof {
            assert(r@.description =~= Seq::<Seq<char>>::empty());
            assert(r@.tags =~= Seq::<Seq<char>>::empty());
        }
        r
    }

    /// Append one line to the description.
    pub fn describe(&mut self, description: String)
        ensures
            final(self)@.title == old(self)@.title,
            final(self)@.description == old(self)@.description.push(description@),
            final(self)@.tags == old(self)@.tags,
    {
        self.description.push(description);
        proof {
            assert(self@.description =~= old(self)@.description.push(description@));
            assert(self@.tags =~= old(self)@.tags);
        }
    }

    /// Drop duplicate tags, keeping the first occurrence of each;
    /// nothing else changes.
    pub fn normalize(&mut self)
        ensures
            final(self)@.wf(),
            final(self)@.title == old(self)@.title,
            final(self)@.description == old(self)@.description,
            normalized(old(self)@, final(self)@),
    {
        let n = self.tags.len();
        let mut keep: Vec<String> = Vec::new();
        let mut i: usize = 0;
        proof {
            assert(keep.deep_view() =~= Seq::<Seq<char>>::empty());
        }
        while i < n
            invariant
                n == self.tags.len(),
                i <= n,
                *self == *old(self),
                tags_unique(keep.deep_view()),
                forall|s: Seq<char>|
                    keep.deep_view().contains(s) <==> old(self)@.tags.take(i as int).contains(s),
            decreases n - i,
        {
            let ghost t0 = old(self)@.tags;
            let ghost keep0 = keep.deep_view();
            let s = self.tags[i].clone();
            proof {
                assert(s@ == t0[i as int]);
                assert(t0.take(i + 1 as int) =~= t0.take(i as int).push(t0[i as int]));
            }
            let absent = !contains_string(&keep, &s);
            if absent {
                keep.push(s);
                proof {
                    assert(keep.deep_view() =~= keep0.push(t0[i as int]));
                }
            }
            proof {
                let tp = t0.take(i as int);
                let t1 = t0.take(i + 1 as int);
                let kd = keep.deep_view();
                let e = t0[i as int];
                assert(t1 =~= tp.push(e));
                assert forall|x: Seq<char>| kd.contains(x) <==> t1.contains(x) by {
                    if absent {
                        assert(kd == keep0.push(e));
                        if kd.contains(x) {
                            let w = choose|w: int| 0 <= w < kd.len() && kd[w] == x;
                            if w < keep0.len() {
                                assert(keep0[w] == x);
                                assert(keep0.contains(x));
                                assert(tp.contains(x));
                                let v = choose|v: int| 0 <= v < tp.len() && tp[v] == x;
                                assert(t1[v] == x);
                                assert(t1.contains(x));
                            } else {
                                assert(x == e);
                                assert(t1[i as int] == x);
                                assert(t1.contains(x));
                            }
                        }
                        if t1.contains(x) {
                            let w = choose|w: int| 0 <= w < t1.len() && t1[w] == x;
                            if w == i {
                                assert(x == e);
                                assert(kd[kd.len() - 1] == x);
                                assert(kd.contains(x));
                            } else {
                                assert(tp[w] == x);
                                assert(tp.contains(x));
                                assert(keep0.contains(x));
                                let v = choose|v: int| 0 <= v < keep0.len() && keep0[v] == x;
                                assert(kd[v] == x);
                                assert(kd.contains(x));
                            }
                        }
                    } else {
                        assert(kd == keep0);
                        assert(keep0.contains(e));
                        if t1.contains(x) {
                            let w = choose|w: int| 0 <= w < t1.len() && t1[w] == x;
                            if w == i {
                                assert(x == e);
                                assert(kd.contains(x));
                            } else {
                                assert(tp[w] == x);
                                assert(tp.contains(x));
                                assert(kd.contains(x));
                            }
                        }
                        if kd.contains(x) {
                            assert(tp.contains(x));
                            let w = choose|w: int| 0 <= w < tp.len() && tp[w] == x;
                            assert(t1[w] == x);
                            assert(t1.contains(x));
                        }
                    }
                }
                if absent {
                    let kd = keep.deep_view();
                    assert forall|a: int, b: int|
                        0 <= a < b < kd.len() implies kd[a] != kd[b] by {
                        if b == kd.len() - 1 {
                            assert(kd[b] == t0[i as int]);
                            assert(keep0[a] == kd[a]);
                            assert(!keep0.contains(t0[i as int]));
                            assert(keep0.contains(keep0[a]));
                        }
                    }
                }
            }
            i += 1;
        }
        self.tags = keep;
        proof {
            assert(old(self)@.tags.take(n as int) =~= old(self)@.tags);
        }
    }

    /// Replace the title.
    pub fn set_title(&mut self, title: String)
        ensures
            final(self)@.title == title@,
            final(self)@.description == old(self)@.description,
            final(self)@.tags == old(self)@.tags,
    {
        self.title = title;
    }

    /// Remove the description line at `index`.
    pub fn remove_description(&mut self, index: usize)
        requires
            index < old(self)@.description.len(),
        ensures
            final(self)@.title == old(self)@.title,
            final(self)@.description == old(self)@.description.remove(index as int),
            final(self)@.tags == old(self)@.tags,
    {
        self.description.remove(index);
        proof {
            assert(self@.description =~= old(self)@.description.remove(index as int));
            assert(self@.tags =~= old(self)@.tags);
        }
    }

    /// Whether a label equal to `tag` is present.
    pub fn has_tag(&self, tag: &String) -> (r: bool)
        ensures
            r == self@.tags.contains(tag@),
    {
        let n = self.tags.len();
        let mut i: usize = 0;
        while i < n
            invariant
                n == self.tags.len(),
                i <= n,
                forall|k: int| 0 <= k < i ==> self@.tags[k] != tag@,
            decreases n - i,
        {
            if self.tags[i] == *tag {
                proof {
                    assert(self@.tags[i as int] == tag@);
                }
                return true;
            }
            i += 1;
        }
        proof {
            assert(!self@.tags.contains(tag@));
        }
        false
    }

    /// Add a label; a label already present is not added again.
    pub fn tag(&mut self, tag: String)
        requires
            old(self)@.wf(),
        ensures
            final(self)@.wf(),
            final(self)@.title == old(self)@.title,
            final(self)@.description == old(self)@.description,
            final(self)@.tags == if old(self)@.tags.contains(tag@) {
                old(self)@.tags
            } else {
                old(self)@.tags.push(tag@)
            },
    {
        if !self.has_tag(&tag) {
            self.tags.push(tag);
            proof {
                assert(self@.tags =~= old(self)@.tags.push(tag@));
                assert(self@.description =~= old(self)@.description);
            }
        }
    }

    /// Remove the label equal to `tag`; reports whether one was removed.
    pub fn remove_tag(&mut self, tag: &String) -> (r: bool)
        requires
            old(self)@.wf(),
        ensures
            final(self)@.wf(),
            final(self)@.title == old(self)@.title,
            final(self)@.description == old(self)@.description,
            r == old(self)@.tags.contains(tag@),
            !r ==> final(self)@.tags == old(self)@.tags,
            r ==> exists|k: int|
                0 <= k < old(self)@.tags.len() && old(self)@.tags[k] == tag@
                    && final(self)@.tags == old(self)@.tags.remove(k),
    {
        let n = self.tags.len();
        let mut i: usize = 0;
        while i < n
            invariant
                n == self.tags.len(),
                i <= n,
                *self == *old(self),
                old(self)@.wf(),
                forall|k: int| 0 <= k < i ==> self@.tags[k] != tag@,
            decreases n - i,
        {
            if self.tags[i] == *tag {
                proof {
                    assert(self@.tags[i as int] == tag@);
                }
                self.tags.remove(i);
                proof {
                    assert(self@.tags =~= old(self)@.tags.remove(i as int));
                    assert(self@.description =~= old(self)@.description);
                    let t0 = old(self)@.tags;
                    let i0 = i as int;
                    t0.remove_ensures(i0);
                    assert forall|a: int, b: int|
                        0 <= a < b < self@.tags.len() implies self@.tags[a]
                        != self@.tags[b] by {
                        let a0 = if a < i0 { a } else { a + 1 };
                        let b0 = if b < i0 { b } else { b + 1 };
                        assert(self@.tags[a] == t0.remove(i0)[a]);
                        assert(self@.tags[b] == t0.remove(i0)[b]);
                        assert(t0.remove(i0)[a] == t0[a0]);
                        assert(t0.remove(i0)[b] == t0[b0]);
                        assert(t0[a0] != t0[b0]);
                    }
                }
                return true;
            }
            i += 1;
        }
        proof {
            assert(!self@.tags.contains(tag@));
        }
        false
    }
}

impl Clone for Tissue {
    /// A clone carries the same value.
    fn clone(&self) -> (r: Self)
        ensures
            r@ == self@,
    {
        let r = Tissue {
            title: self.title.clone(),
            description: self.description.clone(),
            tags: self.tags.clone(),
        };
        proof {
            assert forall|i: int| 0 <= i < self.description@.len() implies r.description@[i]
                == self.description@[i] by {
            }
            assert(r.description@ =~= self.description@);
            assert forall|i: int| 0 <= i < self.tags@.len() implies r.tags@[i] == self.tags@[i] by {
            }
            assert(r.tags@ =~= self.tags@);
            assert(r@ =~= self@);
        }
        r
    }
}

} // verus!
