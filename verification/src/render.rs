use vstd::prelude::*;
use vstd::string::StringExecFns;

use crate::item::{Tissue, TissueView};
use crate::store::TissueBox;
use crate::text::{dec_str, join_with, join_strings, usize_to_string};

verus! {

/// The first display line of an issue: the title, the tags joined in
/// parentheses when there are any, and a line break.
pub open spec fn tissue_head(t: TissueView) -> Seq<char> {
    t.title + (if t.tags.len() == 0 {
        Seq::<char>::empty()
    } else {
        " ("@ + join_with(t.tags, ", "@) + ")"@
    }) + "\n"@
}

/// The display lines of a description: each entry indented and closed by
/// a line break.
pub open spec fn desc_lines(d: Seq<Seq<char>>) -> Seq<char>
    decreases d.len(),
{
    if d.len() == 0 {
        Seq::empty()
    } else {
        desc_lines(d.drop_last()) + "  - "@ + d.last() + "\n"@
    }
}

/// The display text of one issue.
pub open spec fn render_tissue_spec(t: TissueView) -> Seq<char> {
    tissue_head(t) + desc_lines(t.description)
}

/// The display text of the live sequence: each issue under its decimal
/// index.
pub open spec fn render_box_spec(ts: Seq<TissueView>) -> Seq<char>
    decreases ts.len(),
{
    if ts.len() == 0 {
        Seq::empty()
    } else {
        render_box_spec(ts.drop_last()) + dec_str((ts.len() - 1) as nat) + ". "@
            + render_tissue_spec(ts.last())
    }
}

/// The number of display lines taken by the first `k` issues: one for
/// the head line of each, plus one per description line.
pub open spec fn sum_lines_spec(ts: Seq<TissueView>, k: int) -> int
    decreases k,
{
    if k <= 0 {
        0
    } else {
        sum_lines_spec(ts, k - 1) + 1 + ts[k - 1].description.len()
    }
}

/// The partial line counts are never negative and only grow.
pub proof fn lemma_sum_lines_bounds(ts: Seq<TissueView>, a: int, b: int)
    requires
        0 <= a <= b,
    ensures
        0 <= sum_lines_spec(ts, a) <= sum_lines_spec(ts, b),
    decreases b,
{
    if b > 0 {
        if a == b {
            lemma_sum_lines_bounds(ts, if a > 0 {
                a - 1
            } else {
                0
            }, b - 1);
        } else {
            lemma_sum_lines_bounds(ts, a, b - 1);
        }
    }
}

/// The number of display lines above the issue at `index`: one head
/// line per earlier issue plus its description lines. Counts every
/// issue when `index` lies past the end.
pub fn sum_lines(tissues: &Vec<Tissue>, index: usize) -> (r: usize)
    requires
        sum_lines_spec(
            crate::item::views_of(tissues@),
            vstd::math::min(index as int, tissues@.len() as int),
        ) <= usize::MAX,
    ensures
        r == sum_lines_spec(
            crate::item::views_of(tissues@),
            vstd::math::min(index as int, tissues@.len() as int),
        ),
{
    let ghost tv = crate::item::views_of(tissues@);
    let n = if index < tissues.len() {
        index
    } else {
        tissues.len()
    };
    let mut acc: usize = 0;
    let mut i: usize = 0;
    while i < n
        invariant
            n <= tissues@.len(),
            n == vstd::math::min(index as int, tissues@.len() as int),
            i <= n,
            tv == crate::item::views_of(tissues@),
            sum_lines_spec(tv, n as int) <= usize::MAX,
            acc == sum_lines_spec(tv, i as int),
        decreases n - i,
    {
        proof {
            lemma_sum_lines_bounds(tv, i + 1 as int, n as int);
            lemma_sum_lines_bounds(tv, i as int, i + 1 as int);
            assert(tv[i as int] == tissues@[i as int]@);
        }
        let t = &tissues[i];
        acc = acc + 1 + t.description.len();
        i += 1;
    }
    acc
}

impl Tissue {
    /// The display text of this issue.
    pub fn render(&self) -> (r: String)
        ensures
            r@ == render_tissue_spec(self@),
    {
        let mut r = self.title.clone();
        if self.tags.len() > 0 {
            r.append(" (");
            let tags = join_strings(&self.tags, ", ");
            r.append(tags.as_str());
            r.append(")");
        }
        r.append("\n");
        proof {
            assert(r@ =~= tissue_head(self@));
        }
        let n = self.description.len();
        let mut i: usize = 0;
        while i < n
            invariant
                n == self.description.len(),
                i <= n,
                r@ == tissue_head(self@) + desc_lines(self@.description.take(i as int)),
            decreases n - i,
        {
            r.append("  - ");
            r.append(self.description[i].as_str());
            r.append("\n");
            proof {
                let d = self@.description;
                assert(d.take(i + 1 as int).drop_last() =~= d.take(i as int));
                assert(d.take(i + 1 as int).last() == d[i as int]);
                assert(r@ =~= tissue_head(self@) + desc_lines(d.take(i + 1 as int)));
            }
            i += 1;
        }
        proof {
            assert(self@.description.take(n as int) =~= self@.description);
            assert(r@ =~= render_tissue_spec(self@));
        }
        r
    }
}

impl TissueBox {
    /// The display text of the live sequence.
    pub fn render(&self) -> (r: String)
        ensures
            r@ == render_box_spec(self@.tissues),
    {
        let mut r = String::new();
        let n = self.tissues.len();
        let mut i: usize = 0;
        while i < n
            invariant
                n == self.tissues.len(),
                i <= n,
                r@ == render_box_spec(self@.tissues.take(i as int)),
            decreases n - i,
        {
            let idx = usize_to_string(i);
            r.append(idx.as_str());
            r.append(". ");
            let line = self.tissues[i].render();
            r.append(line.as_str());
            proof {
                let ts = self@.tissues;
                assert(ts.take(i + 1 as int).drop_last() =~= ts.take(i as int));
                assert(ts.take(i + 1 as int).last() == ts[i as int]);
                assert(r@ =~= render_box_spec(ts.take(i + 1 as int)));
            }
            i += 1;
        }
        proof {
            assert(self@.tissues.take(n as int) =~= self@.tissues);
        }
        r
    }
}

} // verus!
