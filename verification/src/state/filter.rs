//! The `cd`-style filter history: a stack of filter pieces with `current`
//! and `previous` cursors, navigated by filter instructions.

use vstd::prelude::*;

verus! {

use crate::error::Fallacy;
use crate::filter::{
    all_compile, empty_filter_view, filter_from_resolved, filters_view, merge_views, spec_resolve,
    PaperFilter, PaperFilterView,
};
use crate::strutil::{str_eq, views_of};
use vstd::slice::slice_subrange;

/// One navigation step for the filter history.
pub enum FilterInst {
    /// `cd something`: add a new filter piece, joined with AND.
    Add(PaperFilter),
    /// `cd .`: push an empty piece; changes no constraint, but `cd -` takes
    /// this into account.
    Here,
    /// `cd ..`: go up one level, saturating at the root.
    Parent,
    /// `cd`: go back to the root.
    Reset,
    /// `cd -`: swap back to the previously visited level.
    Prev,
}

/// The mathematical value of a `FilterInst`.
pub ghost enum FilterInstView {
    Add(PaperFilterView),
    Here,
    Parent,
    Reset,
    Prev,
}

impl View for FilterInst {
    type V = FilterInstView;

    open spec fn view(&self) -> FilterInstView {
        match self {
            FilterInst::Add(f) => FilterInstView::Add(f@),
            FilterInst::Here => FilterInstView::Here,
            FilterInst::Parent => FilterInstView::Parent,
            FilterInst::Reset => FilterInstView::Reset,
            FilterInst::Prev => FilterInstView::Prev,
        }
    }
}

/// Whether resolving these arguments to an instruction succeeds: the empty
/// and special forms always do, and an added filter piece does when every
/// resolved pattern compiles.
pub open spec fn spec_inst_ok(v: Seq<Seq<char>>, ci: bool) -> bool {
    if v.len() == 0 {
        true
    } else if v.len() == 1 && (v[0] == "."@ || v[0] == ".."@ || v[0] == "-"@) {
        true
    } else {
        all_compile(spec_resolve(v), ci)
    }
}

/// The instruction these arguments resolve to, when resolution succeeds.
pub open spec fn spec_inst(v: Seq<Seq<char>>, reset_if_empty: bool, ci: bool) -> FilterInstView {
    if v.len() == 0 {
        if reset_if_empty {
            FilterInstView::Reset
        } else {
            FilterInstView::Here
        }
    } else if v.len() == 1 && v[0] == "."@ {
        FilterInstView::Here
    } else if v.len() == 1 && v[0] == ".."@ {
        FilterInstView::Parent
    } else if v.len() == 1 && v[0] == "-"@ {
        FilterInstView::Prev
    } else {
        FilterInstView::Add(filter_from_resolved(spec_resolve(v), ci))
    }
}

impl FilterInst {
    /// Accepts filter arguments given to commands and builds an instance of
    /// `FilterInst`. Remove the command (first argument) and pass the rest
    /// to this function. With no arguments the result is `Reset` when
    /// `reset_if_empty` holds and `Here` otherwise; the single arguments
    /// `.`, `..` and `-` are `Here`, `Parent` and `Prev`; anything else
    /// compiles into an added filter piece.
    pub fn from_args(args: &[String], reset_if_empty: bool, case_insensitive: bool) -> (r: Result<
        Self,
        Fallacy,
    >)
        ensures
            r is Ok <==> spec_inst_ok(views_of(args@), case_insensitive),
            r matches Ok(inst) ==> inst@ == spec_inst(
                views_of(args@),
                reset_if_empty,
                case_insensitive,
            ),
            r matches Err(e) ==> e@ is FilterBuildFailed,
    {
        if args.len() == 0 {
            if reset_if_empty {
                Ok(FilterInst::Reset)
            } else {
                Ok(FilterInst::Here)
            }
        } else if args.len() == 1 {
            let a = &args[0];
            if str_eq(a.as_str(), ".") {
                Ok(FilterInst::Here)
            } else if str_eq(a.as_str(), "..") {
                Ok(FilterInst::Parent)
            } else if str_eq(a.as_str(), "-") {
                Ok(FilterInst::Prev)
            } else {
                match PaperFilter::from_args(args, case_insensitive) {
                    Ok(f) => Ok(FilterInst::Add(f)),
                    Err(e) => Err(e),
                }
            }
        } else {
            match PaperFilter::from_args(args, case_insensitive) {
                Ok(f) => Ok(FilterInst::Add(f)),
                Err(e) => Err(e),
            }
        }
    }
}

/// The filter navigation state: the history of filter pieces (index 0 is
/// the empty root), the current level, and the previously visited level.
pub struct FilterState {
    history: Vec<PaperFilter>,
    current: usize,
    previous: usize,
}

/// The mathematical value of a `FilterState`.
#[verifier::ext_equal]
pub ghost struct FilterStateView {
    pub history: Seq<PaperFilterView>,
    pub current: int,
    pub previous: int,
}

impl View for FilterState {
    type V = FilterStateView;

    closed spec fn view(&self) -> FilterStateView {
        FilterStateView {
            history: filters_view(self.history@),
            current: self.current as int,
            previous: self.previous as int,
        }
    }
}

impl FilterStateView {
    /// The invariant of the navigation state: both cursors are valid
    /// indices into the history, and the root piece is the empty filter.
    pub open spec fn wf(self) -> bool {
        &&& 0 <= self.current < self.history.len()
        &&& 0 <= self.previous < self.history.len()
        &&& crate::filter::filter_view_is_empty(self.history[0])
    }
}

/// The effective filter of a navigation state: the AND-merge of the pieces
/// from the root through the current level.
pub open spec fn effective_filter(st: FilterStateView) -> PaperFilterView {
    merge_views(st.history.take(st.current + 1))
}

/// Advance one level, recording `piece` there: a fresh level is pushed, an
/// abandoned deeper level is overwritten.
pub open spec fn spec_push_level(st: FilterStateView, piece: PaperFilterView) -> FilterStateView {
    let cur = st.current + 1;
    FilterStateView {
        history: if cur == st.history.len() {
            st.history.push(piece)
        } else {
            st.history.update(cur, piece)
        },
        current: cur,
        previous: st.current,
    }
}

/// The transition function of the filter history.
pub open spec fn spec_record(st: FilterStateView, inst: FilterInstView) -> FilterStateView {
    match inst {
        FilterInstView::Add(piece) => spec_push_level(st, piece),
        FilterInstView::Here => spec_push_level(st, empty_filter_view()),
        FilterInstView::Parent => FilterStateView {
            history: st.history,
            current: if st.current > 0 {
                st.current - 1
            } else {
                0
            },
            previous: st.current,
        },
        FilterInstView::Reset => FilterStateView {
            history: st.history,
            current: 0,
            previous: st.current,
        },
        FilterInstView::Prev => FilterStateView {
            history: st.history,
            current: st.previous,
            previous: st.current,
        },
    }
}

/// Law: the navigation invariant is preserved by every instruction.
pub proof fn lemma_record_preserves_wf(st: FilterStateView, inst: FilterInstView)
    requires
        st.wf(),
    ensures
        spec_record(st, inst).wf(),
{
}

/// The navigation state after a whole sequence of instructions.
pub open spec fn spec_record_all(st: FilterStateView, insts: Seq<FilterInstView>) -> FilterStateView
    decreases insts.len(),
{
    if insts.len() == 0 {
        st
    } else {
        spec_record_all(spec_record(st, insts[0]), insts.skip(1))
    }
}

/// Law: after any sequence of instructions, both cursors still point into
/// the history and the root piece is still the empty filter.
pub proof fn lemma_record_all_preserves_wf(st: FilterStateView, insts: Seq<FilterInstView>)
    requires
        st.wf(),
    ensures
        spec_record_all(st, insts).wf(),
    decreases insts.len(),
{
    if insts.len() > 0 {
        lemma_record_preserves_wf(st, insts[0]);
        lemma_record_all_preserves_wf(spec_record(st, insts[0]), insts.skip(1));
    }
}

impl FilterState {
    /// Generate the current filter based on history.
    pub fn current(&self) -> (r: PaperFilter)
        requires
            self@.wf(),
        ensures
            r@ == effective_filter(self@),
    {
        let n = self.history.len();
        let upper = self.current + 1;
        let pieces = slice_subrange(self.history.as_slice(), 0, upper);
        let r = PaperFilter::merge(pieces);
        proof {
            assert(filters_view(pieces@) =~= self@.history.take(self@.current + 1));
        }
        r
    }

    /// Record the given filter instruction in history and generate the
    /// current filter based on the updated history.
    pub fn record(&mut self, inst: FilterInst) -> (r: PaperFilter)
        requires
            old(self)@.wf(),
        ensures
            final(self)@ == spec_record(old(self)@, inst@),
            final(self)@.wf(),
            r@ == effective_filter(final(self)@),
    {
        match inst {
            FilterInst::Add(piece) => {
                let n = self.history.len();
                self.previous = self.current;
                self.current = self.current + 1;
                if self.current == self.history.len() {
                    self.history.push(piece);
                    proof {
                        assert(self@.history =~= spec_record(old(self)@, inst@).history);
                    }
                } else {
                    self.history.set(self.current, piece);
                    proof {
                        assert(self@.history =~= spec_record(old(self)@, inst@).history);
                    }
                }
            },
            FilterInst::Here => {
                let n = self.history.len();
                self.previous = self.current;
                self.current = self.current + 1;
                let piece = PaperFilter::default();
                if self.current == self.history.len() {
                    self.history.push(piece);
                    proof {
                        assert(self@.history =~= spec_record(old(self)@, inst@).history);
                    }
                } else {
                    self.history.set(self.current, piece);
                    proof {
                        assert(self@.history =~= spec_record(old(self)@, inst@).history);
                    }
                }
            },
            FilterInst::Parent => {
                self.previous = self.current;
                if self.current > 0 {
                    self.current = self.current - 1;
                }
            },
            FilterInst::Reset => {
                self.previous = self.current;
                self.current = 0;
            },
            FilterInst::Prev => {
                let tmp = self.previous;
                self.previous = self.current;
                self.current = tmp;
            },
        }
        proof {
            assert(self@ =~= spec_record(old(self)@, inst@));
        }
        self.current()
    }

    /// Observe the given filter instruction but do not record it in
    /// history: return the filter that recording it would have generated.
    pub fn observe(&self, inst: FilterInst) -> (r: PaperFilter)
        requires
            self@.wf(),
        ensures
            r@ == effective_filter(spec_record(self@, inst@)),
    {
        let mut copy = self.clone_state();
        copy.record(inst)
    }

    /// A copy of the whole navigation state.
    fn clone_state(&self) -> (r: FilterState)
        ensures
            r@ == self@,
    {
        let mut history: Vec<PaperFilter> = Vec::new();
        let mut i: usize = 0;
        while i < self.history.len()
            invariant
                i <= self.history@.len(),
                history@.len() == i,
                forall|k: int| 0 <= k < i ==> #[trigger] history@[k]@ == self.history@[k]@,
            decreases self.history@.len() - i,
        {
            history.push(self.history[i].clone());
            i = i + 1;
        }
        let r = FilterState { history, current: self.current, previous: self.previous };
        proof {
            assert(r@.history =~= self@.history);
            assert(r@ =~= self@);
        }
        r
    }

    /// How many levels the history holds.
    pub fn history_len(&self) -> (r: usize)
        ensures
            r == self@.history.len(),
    {
        self.history.len()
    }

    /// The current level.
    pub fn current_index(&self) -> (r: usize)
        ensures
            r == self@.current,
    {
        self.current
    }

    /// The previously visited level.
    pub fn previous_index(&self) -> (r: usize)
        ensures
            r == self@.previous,
    {
        self.previous
    }
}

impl Default for FilterState {
    /// The initial navigation state: one empty root piece, both cursors on
    /// it.
    fn default() -> (r: Self)
        ensures
            r@.wf(),
            r@.history.len() == 1,
            r@.history[0] == empty_filter_view(),
            r@.current == 0,
            r@.previous == 0,
    {
        let mut history: Vec<PaperFilter> = Vec::new();
        history.push(PaperFilter::default());
        FilterState { history, current: 0, previous: 0 }
    }
}

} // verus!
