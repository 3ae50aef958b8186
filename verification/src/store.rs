use vstd::prelude::*;

use crate::item::{normalized, views_of, Tissue, TissueView};

verus! {

/// The full record store: the live issues in display order, a recycle bin
/// of removed issues (most recent last), and an optional starred index
/// into the live sequence.
#[derive(Debug, PartialEq)]
pub struct TissueBox {
    pub recycle_bin: Vec<Tissue>,
    pub tissues: Vec<Tissue>,
    pub starred: Option<usize>,
}

/// The mathematical value of a [`TissueBox`].
#[verifier::ext_equal]
pub struct TissueBoxView {
    pub tissues: Seq<TissueView>,
    pub recycle_bin: Seq<TissueView>,
    pub starred: Option<int>,
}

impl View for TissueBox {
    type V = TissueBoxView;

    open spec fn view(&self) -> TissueBoxView {
        TissueBoxView {
            tissues: self.tissues@.map_values(|t: Tissue| t@),
            recycle_bin: self.recycle_bin@.map_values(|t: Tissue| t@),
            starred: match self.starred {
                Some(s) => Some(s as int),
                None => None,
            },
        }
    }
}

impl TissueBoxView {
    /// Well-formedness: the starred index, if present, points into the
    /// live sequence, and every issue is itself well-formed.
    pub open spec fn wf(&self) -> bool {
        &&& match self.starred {
            Some(s) => 0 <= s < self.tissues.len(),
            None => true,
        }
        &&& forall|i: int| 0 <= i < self.tissues.len() ==> (#[trigger] self.tissues[i]).wf()
        &&& forall|i: int|
            0 <= i < self.recycle_bin.len() ==> (#[trigger] self.recycle_bin[i]).wf()
    }
}

/// The store after a new issue with the given title is created: it is
/// appended to the live sequence, empty but for its title.
pub open spec fn create_spec(b: TissueBoxView, title: Seq<char>) -> TissueBoxView {
    TissueBoxView {
        tissues: b.tissues.push(
            TissueView { title, description: Seq::empty(), tags: Seq::empty() },
        ),
        recycle_bin: b.recycle_bin,
        starred: b.starred,
    }
}

/// The store after the live issue at `i` is removed: it moves to the tail
/// of the recycle bin. A star on the removed issue is cleared; a star
/// above it shifts down with the sequence.
pub open spec fn remove_spec(b: TissueBoxView, i: int) -> TissueBoxView {
    TissueBoxView {
        tissues: b.tissues.remove(i),
        recycle_bin: b.recycle_bin.push(b.tissues[i]),
        starred: match b.starred {
            Some(s) => if s == i {
                None
            } else if s > i {
                Some(s - 1)
            } else {
                Some(s)
            },
            None => None,
        },
    }
}

/// The store after the recycle-bin entry at `i` is restored: it moves to
/// the tail of the live sequence.
pub open spec fn restore_spec(b: TissueBoxView, i: int) -> TissueBoxView {
    TissueBoxView {
        tissues: b.tissues.push(b.recycle_bin[i]),
        recycle_bin: b.recycle_bin.remove(i),
        starred: b.starred,
    }
}

/// The store after one description line is appended to the live issue at
/// `i`.
pub open spec fn describe_spec(b: TissueBoxView, i: int, text: Seq<char>) -> TissueBoxView {
    TissueBoxView {
        tissues: b.tissues.update(
            i,
            TissueView {
                title: b.tissues[i].title,
                description: b.tissues[i].description.push(text),
                tags: b.tissues[i].tags,
            },
        ),
        recycle_bin: b.recycle_bin,
        starred: b.starred,
    }
}

/// The store after a label is added to the live issue at `i`; a label
/// already present is not added again.
pub open spec fn tag_spec(b: TissueBoxView, i: int, tag: Seq<char>) -> TissueBoxView {
    TissueBoxView {
        tissues: b.tissues.update(
            i,
            TissueView {
                title: b.tissues[i].title,
                description: b.tissues[i].description,
                tags: if b.tissues[i].tags.contains(tag) {
                    b.tissues[i].tags
                } else {
                    b.tissues[i].tags.push(tag)
                },
            },
        ),
        recycle_bin: b.recycle_bin,
        starred: b.starred,
    }
}

/// The store after the live issue at `i` is retitled.
pub open spec fn edit_spec(b: TissueBoxView, i: int, title: Seq<char>) -> TissueBoxView {
    TissueBoxView {
        tissues: b.tissues.update(
            i,
            TissueView {
                title,
                description: b.tissues[i].description,
                tags: b.tissues[i].tags,
            },
        ),
        recycle_bin: b.recycle_bin,
        starred: b.starred,
    }
}

/// The store after description line `di` of the live issue at `i` is
/// removed.
pub open spec fn remove_desc_spec(b: TissueBoxView, i: int, di: int) -> TissueBoxView {
    TissueBoxView {
        tissues: b.tissues.update(
            i,
            TissueView {
                title: b.tissues[i].title,
                description: b.tissues[i].description.remove(di),
                tags: b.tissues[i].tags,
            },
        ),
        recycle_bin: b.recycle_bin,
        starred: b.starred,
    }
}

/// How a tissue changes when the label `tag` is removed from it: nothing
/// changes when the label is absent, and with well-formed tags there is
/// exactly one occurrence to take out.
pub open spec fn tag_removed(before: TissueView, after: TissueView, tag: Seq<char>) -> bool {
    &&& after.title == before.title
    &&& after.description == before.description
    &&& if before.tags.contains(tag) {
        exists|k: int|
            0 <= k < before.tags.len() && before.tags[k] == tag && after.tags
                == before.tags.remove(k)
    } else {
        after.tags == before.tags
    }
}

impl TissueBox {
    /// Append a new issue with the given title to the live sequence.
    pub fn create(&mut self, title: String)
        requires
            old(self)@.wf(),
        ensures
            final(self)@.wf(),
            final(self)@ == create_spec(old(self)@, title@),
    {
        let t = Tissue::new(title);
        self.tissues.push(t);
        proof {
            assert(self@.tissues =~= create_spec(old(self)@, title@).tissues);
            assert(self@ =~= create_spec(old(self)@, title@));
        }
    }

    /// Remove the live issue at `index`, moving it to the tail of the
    /// recycle bin; out of range, the store is untouched and `None` comes
    /// back.
    #[must_use]
    pub fn remove(&mut self, index: usize) -> (r: Option<Tissue>)
        requires
            old(self)@.wf(),
        ensures
            final(self)@.wf(),
            index < old(self)@.tissues.len() ==> {
                &&& final(self)@ == remove_spec(old(self)@, index as int)
                &&& r matches Some(t) && t@ == old(self)@.tissues[index as int]
            },
            index >= old(self)@.tissues.len() ==> final(self)@ == old(self)@ && r is None,
    {
        if index >= self.tissues.len() {
            proof {
                assert(self@ =~= old(self)@);
            }
            return None;
        }
        match self.starred {
            Some(s) => {
                if s == index {
                    self.starred = None;
                } else if s > index {
                    self.starred = Some(s - 1);
                }
            },
            None => {},
        }
        let t = self.tissues.remove(index);
        let copy = t.clone();
        self.recycle_bin.push(copy);
        proof {
            assert(self@.tissues =~= remove_spec(old(self)@, index as int).tissues);
            assert(self@.recycle_bin =~= remove_spec(old(self)@, index as int).recycle_bin);
            assert(self@ =~= remove_spec(old(self)@, index as int));
        }
        Some(t)
    }

    /// Move the recycle-bin entry at `index` back onto the tail of the
    /// live sequence; out of range, the store is untouched and `None`
    /// comes back.
    pub fn restore(&mut self, index: usize) -> (r: Option<&Tissue>)
        requires
            old(self)@.wf(),
        ensures
            final(self)@.wf(),
            index < old(self)@.recycle_bin.len() ==> {
                &&& final(self)@ == restore_spec(old(self)@, index as int)
                &&& r matches Some(t) && t@ == old(self)@.recycle_bin[index as int]
            },
            index >= old(self)@.recycle_bin.len() ==> final(self)@ == old(self)@ && r is None,
    {
        if index >= self.recycle_bin.len() {
            proof {
                assert(self@ =~= old(self)@);
            }
            return None;
        }
        let t = self.recycle_bin.remove(index);
        self.tissues.push(t);
        proof {
            assert(self@.tissues =~= restore_spec(old(self)@, index as int).tissues);
            assert(self@.recycle_bin =~= restore_spec(old(self)@, index as int).recycle_bin);
            assert(self@ =~= restore_spec(old(self)@, index as int));
        }
        let n = self.tissues.len();
        Some(&self.tissues[n - 1])
    }

    /// The live issue at `index`, if that is in range.
    pub fn get(&self, index: usize) -> (r: Option<&Tissue>)
        ensures
            match r {
                Some(t) => index < self@.tissues.len() && t@ == self@.tissues[index as int],
                None => index >= self@.tissues.len(),
            },
    {
        if index < self.tissues.len() {
            Some(&self.tissues[index])
        } else {
            None
        }
    }

    /// Append one description line to the live issue at `index`.
    pub fn describe_at(&mut self, index: usize, description: String)
        requires
            old(self)@.wf(),
            index < old(self)@.tissues.len(),
        ensures
            final(self)@.wf(),
            final(self)@ == describe_spec(old(self)@, index as int, description@),
    {
        let t = &mut self.tissues[index];
        t.describe(description);
        proof {
            let want = describe_spec(old(self)@, index as int, description@);
            assert(self@.tissues =~= want.tissues);
            assert(self@ =~= want);
            assert forall|j: int| 0 <= j < self@.tissues.len() implies (
            #[trigger] self@.tissues[j]).wf() by {
                assert(self@.tissues[j].tags == old(self)@.tissues[j].tags);
            }
        }
    }

    /// Add a label to the live issue at `index`; a label already present
    /// is not added again.
    pub fn tag_at(&mut self, index: usize, tag: String)
        requires
            old(self)@.wf(),
            index < old(self)@.tissues.len(),
        ensures
            final(self)@.wf(),
            final(self)@ == tag_spec(old(self)@, index as int, tag@),
    {
        let t = &mut self.tissues[index];
        t.tag(tag);
        proof {
            let want = tag_spec(old(self)@, index as int, tag@);
            assert(self@.tissues =~= want.tissues);
            assert(self@ =~= want);
            assert forall|j: int| 0 <= j < self@.tissues.len() implies (
            #[trigger] self@.tissues[j]).wf() by {
                if j != index as int {
                    assert(self@.tissues[j].tags == old(self)@.tissues[j].tags);
                }
            }
        }
    }

    /// Retitle the live issue at `index`.
    pub fn set_title_at(&mut self, index: usize, title: String)
        requires
            old(self)@.wf(),
            index < old(self)@.tissues.len(),
        ensures
            final(self)@.wf(),
            final(self)@ == edit_spec(old(self)@, index as int, title@),
    {
        let t = &mut self.tissues[index];
        t.set_title(title);
        proof {
            let want = edit_spec(old(self)@, index as int, title@);
            assert(self@.tissues =~= want.tissues);
            assert(self@ =~= want);
            assert forall|j: int| 0 <= j < self@.tissues.len() implies (
            #[trigger] self@.tissues[j]).wf() by {
                assert(self@.tissues[j].tags == old(self)@.tissues[j].tags);
            }
        }
    }

    /// Remove description line `di` of the live issue at `index`.
    pub fn remove_description_at(&mut self, index: usize, di: usize)
        requires
            old(self)@.wf(),
            index < old(self)@.tissues.len(),
            di < old(self)@.tissues[index as int].description.len(),
        ensures
            final(self)@.wf(),
            final(self)@ == remove_desc_spec(old(self)@, index as int, di as int),
    {
        let t = &mut self.tissues[index];
        t.remove_description(di);
        proof {
            let want = remove_desc_spec(old(self)@, index as int, di as int);
            assert(self@.tissues =~= want.tissues);
            assert(self@ =~= want);
            assert forall|j: int| 0 <= j < self@.tissues.len() implies (
            #[trigger] self@.tissues[j]).wf() by {
                assert(self@.tissues[j].tags == old(self)@.tissues[j].tags);
            }
        }
    }

    /// Remove the label equal to `tag` from the live issue at `index`;
    /// reports whether one was removed.
    pub fn remove_tag_at(&mut self, index: usize, tag: &String) -> (r: bool)
        requires
            old(self)@.wf(),
            index < old(self)@.tissues.len(),
        ensures
            final(self)@.wf(),
            r == old(self)@.tissues[index as int].tags.contains(tag@),
            final(self)@.tissues.len() == old(self)@.tissues.len(),
            final(self)@.recycle_bin == old(self)@.recycle_bin,
            final(self)@.starred == old(self)@.starred,
            tag_removed(
                old(self)@.tissues[index as int],
                final(self)@.tissues[index as int],
                tag@,
            ),
            forall|j: int|
                0 <= j < final(self)@.tissues.len() && j != index as int
                    ==> final(self)@.tissues[j] == old(self)@.tissues[j],
    {
        let t = &mut self.tissues[index];
        proof {
            assert((*t)@ == old(self)@.tissues[index as int]);
            assert(old(self)@.tissues[index as int].wf());
        }
        let r = t.remove_tag(tag);
        proof {
            assert(self@.tissues =~= old(self)@.tissues.update(
                index as int,
                self@.tissues[index as int],
            ));
            assert(self@.recycle_bin =~= old(self)@.recycle_bin);
            assert forall|j: int| 0 <= j < self@.tissues.len() implies (
            #[trigger] self@.tissues[j]).wf() by {
                if j != index as int {
                    assert(self@.tissues[j].tags == old(self)@.tissues[j].tags);
                }
            }
        }
        r
    }

    /// Mutable access to the live issue at `index`, if that is in range.
    pub fn get_mut(&mut self, index: usize) -> (r: Option<&mut Tissue>)
        ensures
            match r {
                Some(t) => {
                    &&& index < old(self)@.tissues.len()
                    &&& *t == old(self).tissues@[index as int]
                    &&& final(self).tissues@ == old(self).tissues@.update(
                        index as int,
                        *final(t),
                    )
                    &&& final(self).recycle_bin == old(self).recycle_bin
                    &&& final(self).starred == old(self).starred
                },
                None => index >= old(self)@.tissues.len() && *final(self) == *old(self),
            },
    {
        if index < self.tissues.len() {
            Some(&mut self.tissues[index])
        } else {
            None
        }
    }
}

/// Removing a live issue moves exactly it to the tail of the recycle
/// bin, shrinks the live sequence by one, and clears a star that
/// pointed at it.
pub proof fn lemma_remove_moves_to_bin(b: TissueBoxView, i: int)
    requires
        0 <= i < b.tissues.len(),
    ensures
        remove_spec(b, i).tissues.len() == b.tissues.len() - 1,
        remove_spec(b, i).recycle_bin.len() == b.recycle_bin.len() + 1,
        remove_spec(b, i).recycle_bin.last() == b.tissues[i],
        b.starred == Some(i) ==> remove_spec(b, i).starred is None,
{
}

/// Restoring a recycle-bin entry moves exactly it to the tail of the
/// live sequence and shrinks the recycle bin by one.
pub proof fn lemma_restore_moves_to_live(b: TissueBoxView, i: int)
    requires
        0 <= i < b.recycle_bin.len(),
    ensures
        restore_spec(b, i).tissues.len() == b.tissues.len() + 1,
        restore_spec(b, i).tissues.last() == b.recycle_bin[i],
        restore_spec(b, i).recycle_bin.len() == b.recycle_bin.len() - 1,
{
}

impl TissueBox {
    /// Build a store from loaded parts: every issue is normalized (its
    /// duplicate tags dropped), and a starred index outside the live
    /// sequence is cleared.
    pub fn from_parts(tissues: Vec<Tissue>, recycle_bin: Vec<Tissue>, starred: Option<usize>) -> (r:
        TissueBox)
        ensures
            r@.wf(),
            r@.tissues.len() == tissues@.len(),
            r@.recycle_bin.len() == recycle_bin@.len(),
            forall|i: int|
                0 <= i < tissues@.len() ==> normalized(views_of(tissues@)[i], r@.tissues[i]),
            forall|i: int|
                0 <= i < recycle_bin@.len() ==> normalized(
                    views_of(recycle_bin@)[i],
                    r@.recycle_bin[i],
                ),
            r@.starred == (match starred {
                Some(s) => if (s as int) < tissues@.len() {
                    Some(s as int)
                } else {
                    None
                },
                None => None,
            }),
    {
        let mut tissues = tissues;
        let mut recycle_bin = recycle_bin;
        let ghost tv0 = views_of(tissues@);
        let ghost bv0 = views_of(recycle_bin@);
        let n = tissues.len();
        let mut i: usize = 0;
        while i < n
            invariant
                n == tissues@.len(),
                i <= n,
                tv0.len() == n,
                forall|j: int| 0 <= j < i ==> normalized(tv0[j], #[trigger] tissues@[j]@),
                forall|j: int| i <= j < n ==> #[trigger] tissues@[j]@ == tv0[j],
            decreases n - i,
        {
            let t = &mut tissues[i];
            t.normalize();
            i += 1;
        }
        let m = recycle_bin.len();
        let mut k: usize = 0;
        while k < m
            invariant
                m == recycle_bin@.len(),
                k <= m,
                bv0.len() == m,
                n == tissues@.len(),
                forall|j: int| 0 <= j < n ==> normalized(tv0[j], #[trigger] tissues@[j]@),
                forall|j: int| 0 <= j < k ==> normalized(bv0[j], #[trigger] recycle_bin@[j]@),
                forall|j: int| k <= j < m ==> #[trigger] recycle_bin@[j]@ == bv0[j],
            decreases m - k,
        {
            let t = &mut recycle_bin[k];
            t.normalize();
            k += 1;
        }
        let starred = match starred {
            Some(s) => if s < tissues.len() {
                Some(s)
            } else {
                None
            },
            None => None,
        };
        let r = TissueBox { recycle_bin, tissues, starred };
        r
    }
}

impl Default for TissueBox {
    /// An empty store: no issues, empty recycle bin, no star.
    fn default() -> (r: Self)
        ensures
            r@.wf(),
            r@.tissues == Seq::<TissueView>::empty(),
            r@.recycle_bin == Seq::<TissueView>::empty(),
            r@.starred is None,
    {
        let r = TissueBox { recycle_bin: Vec::new(), tissues: Vec::new(), starred: None };
        proof {
            assert(r@.tissues =~= Seq::<TissueView>::empty());
            assert(r@.recycle_bin =~= Seq::<TissueView>::empty());
        }
        r
    }
}

} // verus!
