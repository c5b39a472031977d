//! The `rm` command's computing half: drop the selected papers from the
//! store. Confirmation prompts and deleting the papers' files and notes are
//! the surrounding program's business; it calls `remove_papers` once those
//! are done.

use vstd::prelude::*;

verus! {

use crate::paper::PaperView;
use crate::state::{papers_view, State, StateView};
use crate::strutil::dec_str;
use vstd::string::StringExecFns;

/// The store after the selected indices, processed from the last to the
/// first, are removed; with a strictly increasing selection each removal
/// leaves the earlier indices valid.
pub open spec fn spec_drop_selected(
    papers: Seq<PaperView>,
    sel: Seq<int>,
    k: int,
) -> Seq<PaperView>
    decreases sel.len() - k,
{
    if k < 0 || k >= sel.len() {
        papers
    } else {
        spec_drop_selected(papers, sel, k + 1).remove(sel[k])
    }
}

/// The message `rm` reports: the count, with `paper` singular only for one.
pub open spec fn removed_message(n: nat) -> Seq<char> {
    "Removed "@ + dec_str(n) + " "@ + (if n != 1 {
        "papers"@
    } else {
        "paper"@
    }) + " from the paperbase."@
}

/// Whether `sel` is a strictly increasing selection of indices below `n`.
pub open spec fn strictly_increasing_below(sel: Seq<int>, n: int) -> bool {
    &&& forall|k: int| 0 <= k < sel.len() ==> 0 <= #[trigger] sel[k] < n
    &&& forall|i: int, j: int| 0 <= i < j < sel.len() ==> sel[i] < sel[j]
}

/// Whether some index in `sel`, at position `j` or later, equals `p`.
pub open spec fn sel_has_from(sel: Seq<int>, j: int, p: int) -> bool {
    exists|t: int| j <= t < sel.len() && sel[t] == p
}

/// The papers at positions below `n` that positions `j` and later of the
/// selection do not name, in their original order.
pub open spec fn keep_unselected(
    papers: Seq<PaperView>,
    sel: Seq<int>,
    j: int,
    n: int,
) -> Seq<PaperView>
    decreases n,
{
    if n <= 0 {
        Seq::empty()
    } else {
        keep_unselected(papers, sel, j, n - 1) + (if sel_has_from(sel, j, n - 1) {
            Seq::empty()
        } else {
            seq![papers[n - 1]]
        })
    }
}

proof fn lemma_keep_all(papers: Seq<PaperView>, sel: Seq<int>, j: int, n: int)
    requires
        0 <= n <= papers.len(),
        forall|t: int| j <= t < sel.len() ==> #[trigger] sel[t] >= n,
    ensures
        keep_unselected(papers, sel, j, n) == papers.take(n),
    decreases n,
{
    if n <= 0 {
        assert(papers.take(0) =~= Seq::<PaperView>::empty());
    } else {
        lemma_keep_all(papers, sel, j, n - 1);
        assert(!sel_has_from(sel, j, n - 1));
        assert(papers.take(n - 1) + seq![papers[n - 1]] =~= papers.take(n));
    }
}

proof fn lemma_keep_step(papers: Seq<PaperView>, sel: Seq<int>, k: int, n: int)
    requires
        strictly_increasing_below(sel, papers.len() as int),
        0 <= k < sel.len(),
        sel[k] + 1 <= n <= papers.len(),
    ensures
        keep_unselected(papers, sel, k + 1, n).len() > sel[k],
        keep_unselected(papers, sel, k, n) == keep_unselected(papers, sel, k + 1, n).remove(
            sel[k],
        ),
    decreases n,
{
    let p = sel[k];
    if n == p + 1 {
        assert forall|t: int| k <= t < sel.len() implies #[trigger] sel[t] >= n - 1 by {
            if t > k {
                assert(sel[k] < sel[t]);
            }
        }
        assert forall|t: int| k + 1 <= t < sel.len() implies #[trigger] sel[t] >= n by {
            assert(sel[k] < sel[t]);
        }
        lemma_keep_all(papers, sel, k, n - 1);
        lemma_keep_all(papers, sel, k + 1, n);
        assert(sel_has_from(sel, k, p));
        assert(keep_unselected(papers, sel, k, n) == papers.take(p) + Seq::<PaperView>::empty());
        assert(papers.take(n).remove(p) =~= papers.take(p) + Seq::<PaperView>::empty());
    } else {
        lemma_keep_step(papers, sel, k, n - 1);
        // At position n - 1 > sel[k], dropping position k from the selection
        // range changes nothing.
        assert(sel_has_from(sel, k, n - 1) == sel_has_from(sel, k + 1, n - 1)) by {
            if sel_has_from(sel, k, n - 1) {
                let t = choose|t: int| k <= t < sel.len() && sel[t] == n - 1;
                assert(t != k);
                assert(sel_has_from(sel, k + 1, n - 1));
            }
        }
        let a = keep_unselected(papers, sel, k + 1, n - 1);
        let x = if sel_has_from(sel, k + 1, n - 1) {
            Seq::<PaperView>::empty()
        } else {
            seq![papers[n - 1]]
        };
        assert((a + x).remove(p) =~= a.remove(p) + x);
    }
}

/// Law: removing a strictly increasing selection from the last index to the
/// first keeps exactly the papers the selection does not name, in their
/// original order.
pub proof fn lemma_drop_selected_keeps_unselected(papers: Seq<PaperView>, sel: Seq<int>, k: int)
    requires
        strictly_increasing_below(sel, papers.len() as int),
        0 <= k <= sel.len(),
    ensures
        spec_drop_selected(papers, sel, k) == keep_unselected(
            papers,
            sel,
            k,
            papers.len() as int,
        ),
    decreases sel.len() - k,
{
    let n = papers.len() as int;
    if k >= sel.len() {
        lemma_keep_all(papers, sel, k, n);
        assert(papers.take(n) =~= papers);
    } else {
        lemma_drop_selected_keeps_unselected(papers, sel, k + 1);
        lemma_keep_step(papers, sel, k, n);
    }
}

proof fn lemma_increasing_gap(sel: Seq<int>, i: int, j: int)
    requires
        forall|a: int, b: int| 0 <= a < b < sel.len() ==> sel[a] < sel[b],
        0 <= i <= j < sel.len(),
    ensures
        sel[j] >= sel[i] + (j - i),
    decreases j - i,
{
    if i < j {
        lemma_increasing_gap(sel, i, j - 1);
        assert(sel[j - 1] < sel[j]);
    }
}

/// Remove the selected papers from the store, from the last index to the
/// first, and report how many went.
pub fn remove_papers(state: &mut State, list: &crate::paper::PaperList) -> (r: String)
    requires
        old(state).wf(),
        strictly_increasing_below(list@, old(state)@.papers.len() as int),
    ensures
        final(state).wf(),
        final(state)@.papers == spec_drop_selected(old(state)@.papers, list@, 0),
        final(state)@.papers == keep_unselected(
            old(state)@.papers,
            list@,
            0,
            old(state)@.papers.len() as int,
        ),
        final(state)@.filters == old(state)@.filters,
        r@ == removed_message(list@.len() as nat),
{
    proof {
        lemma_drop_selected_keeps_unselected(old(state)@.papers, list@, 0);
    }
    let num = list.0.len();
    let ghost sel = list@;
    let mut k: usize = num;
    while k > 0
        invariant
            k <= num,
            num == list.0@.len(),
            sel == list@,
            state.wf(),
            state@.filters == old(state)@.filters,
            strictly_increasing_below(sel, old(state)@.papers.len() as int),
            state@.papers == spec_drop_selected(old(state)@.papers, sel, k as int),
            state@.papers.len() == old(state)@.papers.len() - (num - k),
        decreases k,
    {
        k = k - 1;
        let ind = list.0[k];
        proof {
            assert(sel[k as int] == ind as int);
            // Indices not yet removed are all above this one, so it is
            // still in bounds after the removals made so far.
            lemma_increasing_gap(sel, k as int, num - 1);
            assert(ind < state.papers@.len());
        }
        let ghost papers0 = state@.papers;
        let _ = state.papers.remove(ind);
        proof {
            assert(papers_view(state.papers@) =~= papers0.remove(ind as int));
        }
    }
    let mut msg = String::from_str("Removed ");
    let count = crate::strutil::usize_to_string(num);
    msg.append(count.as_str());
    if num != 1 {
        msg.append(" papers from the paperbase.");
        proof {
            reveal_strlit(" papers from the paperbase.");
            reveal_strlit(" ");
            reveal_strlit("papers");
            reveal_strlit(" from the paperbase.");
            assert(msg@ =~= removed_message(num as nat));
        }
    } else {
        msg.append(" paper from the paperbase.");
        proof {
            reveal_strlit(" paper from the paperbase.");
            reveal_strlit(" ");
            reveal_strlit("paper");
            reveal_strlit(" from the paperbase.");
            assert(msg@ =~= removed_message(num as nat));
        }
    }
    msg
}

} // verus!
