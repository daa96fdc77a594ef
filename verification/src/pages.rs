//! Index arithmetic for a list that is shown one page at a time.

use vstd::prelude::*;

verus! {

/// The mathematical model of [`Pages`]: an offset into `total` entries that
/// are shown `per_page` at a time.
pub struct PagesView {
    pub index: nat,
    pub per_page: nat,
    pub total: nat,
}

impl PagesView {
    /// The offset of the first entry of the last page.
    pub open spec fn last_index(self) -> nat {
        if self.total == 0 {
            0
        } else {
            (((self.total - 1) / (self.per_page as int)) * self.per_page) as nat
        }
    }

    /// The pager is at the start of a page that holds an entry, or at zero
    /// when there is no entry at all.
    pub open spec fn wf(self) -> bool {
        &&& self.per_page >= 1
        &&& self.index % self.per_page == 0
        &&& self.index <= self.last_index()
    }

    /// The one-based number of the current page.
    pub open spec fn curr_page(self) -> nat {
        self.index / self.per_page + 1
    }

    /// The one-based number of the last page; an empty list has one page.
    pub open spec fn last_page(self) -> nat {
        self.last_index() / self.per_page + 1
    }

    pub open spec fn with_index(self, index: nat) -> PagesView {
        PagesView { index, ..self }
    }

    /// One page forward, staying on the last page.
    pub open spec fn next_page(self) -> PagesView {
        if self.index < self.last_index() {
            self.with_index(self.index + self.per_page)
        } else {
            self
        }
    }

    /// One page back, staying on the first page.
    pub open spec fn prev_page(self) -> PagesView {
        if self.index >= self.per_page {
            self.with_index((self.index - self.per_page) as nat)
        } else {
            self.with_index(0)
        }
    }

    pub open spec fn first_page(self) -> PagesView {
        self.with_index(0)
    }

    pub open spec fn final_page(self) -> PagesView {
        self.with_index(self.last_index())
    }

    /// To the page with the given one-based number, clamped into
    /// `1 ..= last_page()`.
    pub open spec fn jump(self, page: nat) -> PagesView {
        self.with_index(((clamp_page(page, self.last_page()) - 1) * self.per_page) as nat)
    }

    pub open spec fn apply(self, step: PageStep) -> PagesView {
        match step {
            PageStep::Next => self.next_page(),
            PageStep::Prev => self.prev_page(),
            PageStep::First => self.first_page(),
            PageStep::Last => self.final_page(),
            PageStep::Jump(page) => self.jump(page as nat),
        }
    }

    /// The pager after a whole sequence of steps, first to last.
    pub open spec fn apply_all(self, steps: Seq<PageStep>) -> PagesView
        decreases steps.len(),
    {
        if steps.len() == 0 {
            self
        } else {
            self.apply(steps[0]).apply_all(steps.drop_first())
        }
    }
}

/// `page` clamped into `1 ..= last`.
pub open spec fn clamp_page(page: nat, last: nat) -> nat {
    if page < 1 {
        1
    } else if page > last {
        last
    } else {
        page
    }
}

/// One move of a pager.
#[derive(Clone, Copy, Debug, PartialEq, Eq)]
pub enum PageStep {
    Next,
    Prev,
    First,
    Last,
    Jump(usize),
}

/// A pager: the offset of the current page within a fixed number of entries.
#[derive(Clone, Copy, Debug)]
pub struct Pages {
    index: usize,
    per_page: usize,
    total: usize,
}

impl View for Pages {
    type V = PagesView;

    closed spec fn view(&self) -> PagesView {
        PagesView { index: self.index as nat, per_page: self.per_page as nat, total: self.total as nat }
    }
}

/// A multiple of `p`, written as a product, divides evenly.
proof fn lemma_of_multiple(k: int, p: int)
    requires
        k >= 0,
        p >= 1,
    ensures
        (k * p) % p == 0,
        (k * p) / p == k,
        k * p >= k,
        k * p == p * k,
{
    vstd::arithmetic::div_mod::lemma_mod_multiples_basic(k, p);
    vstd::arithmetic::div_mod::lemma_div_multiples_vanish(k, p);
    assert(k * p == p * k) by (nonlinear_arith);
    assert(k * p >= k) by (nonlinear_arith)
        requires
            k >= 0,
            p >= 1,
    ;
}

/// A number that `p` divides is its quotient times `p`.
proof fn lemma_multiple(a: int, p: int)
    requires
        a >= 0,
        p >= 1,
        a % p == 0,
    ensures
        a == (a / p) * p,
        0 <= a / p <= a,
{
    vstd::arithmetic::div_mod::lemma_fundamental_div_mod(a, p);
    vstd::arithmetic::div_mod::lemma_div_pos_is_pos(a, p);
    let k = a / p;
    assert(p * k == k * p) by (nonlinear_arith);
    assert(k * p >= k) by (nonlinear_arith)
        requires
            k >= 0,
            p >= 1,
    ;
}

/// The last page starts on a multiple of the page size and holds the last
/// entry.
pub proof fn lemma_last_index(v: PagesView)
    requires
        v.per_page >= 1,
    ensures
        v.last_index() % v.per_page == 0,
        v.total > 0 ==> v.last_index() < v.total,
        v.total > 0 ==> v.total <= v.last_index() + v.per_page,
        v.total == 0 ==> v.last_index() == 0,
{
    let p = v.per_page as int;
    if v.total > 0 {
        let q = (v.total - 1) / p;
        vstd::arithmetic::div_mod::lemma_fundamental_div_mod(v.total - 1, p);
        vstd::arithmetic::div_mod::lemma_mod_bound(v.total - 1, p);
        vstd::arithmetic::div_mod::lemma_div_pos_is_pos(v.total - 1, p);
        lemma_of_multiple(q, p);
    } else {
        lemma_of_multiple(0, p);
    }
}

impl Pages {
    #[verifier::type_invariant]
    spec fn inv(self) -> bool {
        self@.wf()
    }

    /// A pager on its first page.
    pub fn new(per_page: usize, total: usize) -> (pages: Pages)
        requires
            per_page >= 1,
        ensures
            pages@ == (PagesView { index: 0, per_page: per_page as nat, total: total as nat }),
            pages@.wf(),
    {
        proof {
            lemma_last_index(PagesView { index: 0, per_page: per_page as nat, total: total as nat });
        }
        Pages { index: 0, per_page, total }
    }

    /// The offset of the first entry of the current page.
    pub fn index(&self) -> (index: usize)
        ensures
            index == self@.index,
            self@.wf(),
    {
        proof {
            use_type_invariant(self);
        }
        self.index
    }

    pub fn per_page(&self) -> (per_page: usize)
        ensures
            per_page == self@.per_page,
            per_page >= 1,
    {
        proof {
            use_type_invariant(self);
        }
        self.per_page
    }

    /// The number of entries that the pager runs over.
    pub fn total(&self) -> (total: usize)
        ensures
            total == self@.total,
    {
        self.total
    }

    /// The offset of the first entry of the last page.
    pub fn last_index(&self) -> (last: usize)
        ensures
            last == self@.last_index(),
            self@.wf(),
    {
        proof {
            use_type_invariant(self);
            lemma_last_index(self@);
        }
        if self.total == 0 {
            0
        } else {
            let q: usize = (self.total - 1) / self.per_page;
            q * self.per_page
        }
    }

    /// The one-based number of the current page.
    pub fn curr_page(&self) -> (page: usize)
        ensures
            page == self@.curr_page(),
            1 <= page <= self@.last_page(),
    {
        proof {
            use_type_invariant(self);
            lemma_pages_in_range(self@);
            lemma_last_index(self@);
        }
        self.index / self.per_page + 1
    }

    /// The one-based number of the last page.
    pub fn last_page(&self) -> (page: usize)
        ensures
            page == self@.last_page(),
            page >= 1,
    {
        let last = self.last_index();
        proof {
            use_type_invariant(self);
            lemma_pages_in_range(self@);
            lemma_last_index(self@);
        }
        last / self.per_page + 1
    }

    /// Moves one page forward; on the last page nothing changes.
    pub fn next_page(&mut self)
        ensures
            final(self)@ == old(self)@.next_page(),
            final(self)@.wf(),
    {
        let last = self.last_index();
        proof {
            use_type_invariant(&*self);
            lemma_step_keeps_wf(self@, PageStep::Next);
            lemma_last_index(self@);
        }
        if self.index < last {
            self.index = self.index + self.per_page;
        }
    }

    /// Moves one page back; on the first page nothing changes.
    pub fn prev_page(&mut self)
        ensures
            final(self)@ == old(self)@.prev_page(),
            final(self)@.wf(),
    {
        proof {
            use_type_invariant(&*self);
            lemma_step_keeps_wf(self@, PageStep::Prev);
        }
        if self.index >= self.per_page {
            self.index = self.index - self.per_page;
        } else {
            self.index = 0;
        }
    }

    /// Moves to the first page.
    pub fn first_page(&mut self)
        ensures
            final(self)@ == old(self)@.first_page(),
            final(self)@.wf(),
    {
        proof {
            use_type_invariant(&*self);
            lemma_step_keeps_wf(self@, PageStep::First);
        }
        self.index = 0;
    }

    /// Moves to the last page.
    pub fn final_page(&mut self)
        ensures
            final(self)@ == old(self)@.final_page(),
            final(self)@.wf(),
    {
        let last = self.last_index();
        proof {
            use_type_invariant(&*self);
            lemma_step_keeps_wf(self@, PageStep::Last);
        }
        self.index = last;
    }

    /// Moves to the page with the given one-based number. A number below one
    /// goes to the first page, one above the last page to the last page.
    pub fn jump(&mut self, page: usize)
        ensures
            final(self)@ == old(self)@.jump(page as nat),
            final(self)@.wf(),
            final(self)@.curr_page() == clamp_page(page as nat, old(self)@.last_page()),
    {
        let last = self.last_page();
        let target: usize = if page < 1 {
            1
        } else if page > last {
            last
        } else {
            page
        };
        proof {
            use_type_invariant(&*self);
            lemma_step_keeps_wf(self@, PageStep::Jump(page));
            lemma_jump_lands(self@, page as nat);
            lemma_last_index(self@);
            lemma_pages_in_range(self@);
            let p = self.per_page as int;
            let t = target as int;
            let l = last as int;
            assert(0 <= (t - 1) * p <= (l - 1) * p) by (nonlinear_arith)
                requires
                    1 <= t <= l,
                    p >= 1,
            ;
        }
        self.index = (target - 1) * self.per_page;
    }

    /// Makes the given move.
    pub fn step(&mut self, step: PageStep)
        ensures
            final(self)@ == old(self)@.apply(step),
            final(self)@.wf(),
    {
        match step {
            PageStep::Next => self.next_page(),
            PageStep::Prev => self.prev_page(),
            PageStep::First => self.first_page(),
            PageStep::Last => self.final_page(),
            PageStep::Jump(page) => self.jump(page),
        }
    }
}

/// On a well-formed pager the current page lies between one and the last
/// page, and the offset is the page size times the pages before it.
pub proof fn lemma_pages_in_range(v: PagesView)
    requires
        v.wf(),
    ensures
        1 <= v.curr_page() <= v.last_page(),
        (v.curr_page() - 1) * v.per_page == v.index,
        (v.last_page() - 1) * v.per_page == v.last_index(),
        v.curr_page() <= v.index + 1,
        v.last_page() <= v.last_index() + 1,
{
    let p = v.per_page as int;
    lemma_last_index(v);
    lemma_multiple(v.index as int, p);
    lemma_multiple(v.last_index() as int, p);
    vstd::arithmetic::div_mod::lemma_div_is_ordered(v.index as int, v.last_index() as int, p);
}

/// A jump lands on the page asked for, clamped into `1 ..= last_page()`.
pub proof fn lemma_jump_lands(v: PagesView, page: nat)
    requires
        v.wf(),
    ensures
        v.jump(page).curr_page() == clamp_page(page, v.last_page()),
        v.jump(page).last_page() == v.last_page(),
{
    let p = v.per_page as int;
    let target = clamp_page(page, v.last_page()) as int;
    lemma_pages_in_range(v);
    lemma_of_multiple(target - 1, p);
}

/// Every move keeps the pager well-formed, and leaves the page size and the
/// number of entries alone.
pub proof fn lemma_step_keeps_wf(v: PagesView, step: PageStep)
    requires
        v.wf(),
    ensures
        v.apply(step).wf(),
        v.apply(step).per_page == v.per_page,
        v.apply(step).total == v.total,
{
    let p = v.per_page as int;
    lemma_last_index(v);
    lemma_of_multiple(0, p);
    match step {
        PageStep::Next => {
            if v.index < v.last_index() {
                lemma_multiple(v.index as int, p);
                lemma_multiple(v.last_index() as int, p);
                let a = v.index as int / p;
                let b = v.last_index() as int / p;
                assert(a < b) by (nonlinear_arith)
                    requires
                        a * p < b * p,
                        p >= 1,
                ;
                lemma_of_multiple(a + 1, p);
                assert((a + 1) * p == a * p + p) by (nonlinear_arith);
                assert((a + 1) * p <= b * p) by (nonlinear_arith)
                    requires
                        a + 1 <= b,
                        p >= 1,
                ;
            }
        },
        PageStep::Prev => {
            if v.index >= v.per_page {
                lemma_multiple(v.index as int, p);
                let a = v.index as int / p;
                assert(a >= 1) by (nonlinear_arith)
                    requires
                        a * p >= p,
                        p >= 1,
                        a >= 0,
                ;
                lemma_of_multiple(a - 1, p);
                assert((a - 1) * p == a * p - p) by (nonlinear_arith);
            }
        },
        PageStep::First => {},
        PageStep::Last => {},
        PageStep::Jump(page) => {
            let target = clamp_page(page as nat, v.last_page()) as int;
            lemma_pages_in_range(v);
            lemma_of_multiple(target - 1, p);
            assert((target - 1) * p <= (v.last_page() - 1) * p) by (nonlinear_arith)
                requires
                    1 <= target <= v.last_page(),
                    p >= 1,
            ;
        },
    }
}

/// Whatever moves are made, in whatever order, the pager stays on an entry:
/// its offset is below the number of entries, and zero when there is none.
pub proof fn lemma_index_in_bounds(v: PagesView, steps: Seq<PageStep>)
    requires
        v.wf(),
    ensures
        v.apply_all(steps).wf(),
        v.apply_all(steps).per_page == v.per_page,
        v.apply_all(steps).total == v.total,
        v.total > 0 ==> v.apply_all(steps).index < v.total,
        v.total == 0 ==> v.apply_all(steps).index == 0,
    decreases steps.len(),
{
    lemma_last_index(v);
    if steps.len() > 0 {
        lemma_step_keeps_wf(v, steps[0]);
        lemma_index_in_bounds(v.apply(steps[0]), steps.drop_first());
    }
}

} // verus!
