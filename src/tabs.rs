use vstd::prelude::*;

verus! {

/// The kind of list shown under a tab.
#[derive(Clone, Copy, Debug, PartialEq, Eq, Structural)]
pub enum TabPage {
    UncheckedReports,
    UncheckedProducts,
    UnassignedProducts,
}

/// The page shown under the tab at `index`.
pub open spec fn page_at(index: int) -> TabPage {
    if index == 0 {
        TabPage::UncheckedReports
    } else if index == 1 {
        TabPage::UncheckedProducts
    } else {
        TabPage::UnassignedProducts
    }
}

/// The active index after a step forward over `count` tabs.
pub open spec fn next_index(index: int, count: int) -> int {
    (index + 1) % count
}

/// The active index after a step backward over `count` tabs.
pub open spec fn previous_index(index: int, count: int) -> int {
    if index > 0 {
        index - 1
    } else {
        count - 1
    }
}

/// The active index after `k` steps forward.
pub open spec fn next_times(index: int, count: int, k: nat) -> int
    decreases k,
{
    if k == 0 {
        index
    } else {
        next_index(next_times(index, count, (k - 1) as nat), count)
    }
}

/// The active index after `k` steps backward.
pub open spec fn previous_times(index: int, count: int, k: nat) -> int
    decreases k,
{
    if k == 0 {
        index
    } else {
        previous_index(previous_times(index, count, (k - 1) as nat), count)
    }
}

/// The ordered tab labels and the index of the active tab.
pub struct TabsState<'a> {
    titles: Vec<&'a str>,
    index: usize,
}

impl<'a> TabsState<'a> {
    /// The tab labels.
    pub closed spec fn spec_titles(&self) -> Seq<&'a str> {
        self.titles@
    }

    /// The index of the active tab.
    pub closed spec fn spec_index(&self) -> int {
        self.index as int
    }

    /// The active index lies among the tabs, or is 0 when there are none.
    pub open spec fn wf(&self) -> bool {
        &&& 0 <= self.spec_index()
        &&& (self.spec_titles().len() > 0 ==> self.spec_index() < self.spec_titles().len())
        &&& (self.spec_titles().len() == 0 ==> self.spec_index() == 0)
    }

    /// A registry over `titles` whose first tab is active.
    pub fn new(titles: Vec<&'a str>) -> (t: TabsState<'a>)
        ensures
            t.wf(),
            t.spec_titles() == titles@,
            t.spec_index() == 0,
    {
        TabsState { titles, index: 0 }
    }

    /// Activates the following tab, the first one after the last.
    pub fn next(&mut self)
        requires
            old(self).wf(),
            old(self).spec_titles().len() > 0,
        ensures
            final(self).wf(),
            final(self).spec_titles() == old(self).spec_titles(),
            final(self).spec_index() == next_index(
                old(self).spec_index(),
                old(self).spec_titles().len() as int,
            ),
    {
        let count = self.titles.len();
        self.index = (self.index + 1) % count;
    }

    /// Activates the preceding tab, the last one before the first.
    pub fn previous(&mut self)
        requires
            old(self).wf(),
            old(self).spec_titles().len() > 0,
        ensures
            final(self).wf(),
            final(self).spec_titles() == old(self).spec_titles(),
            final(self).spec_index() == previous_index(
                old(self).spec_index(),
                old(self).spec_titles().len() as int,
            ),
    {
        if self.index > 0 {
            self.index -= 1;
        } else {
            self.index = self.titles.len() - 1;
        }
    }

    /// The page of the active tab.
    pub fn page(&self) -> (p: TabPage)
        requires
            self.wf(),
            self.spec_index() < 3,
        ensures
            p == page_at(self.spec_index()),
    {
        match self.index {
            0 => TabPage::UncheckedReports,
            1 => TabPage::UncheckedProducts,
            _ => TabPage::UnassignedProducts,
        }
    }

    /// The tab labels, in order.
    pub fn titles(&self) -> (r: &Vec<&'a str>)
        ensures
            r@ == self.spec_titles(),
    {
        &self.titles
    }

    /// The index of the active tab.
    pub fn index(&self) -> (r: usize)
        ensures
            r as int == self.spec_index(),
    {
        self.index
    }
}

proof fn lemma_next_times_mod(index: int, count: int, k: nat)
    requires
        count > 0,
        0 <= index < count,
    ensures
        next_times(index, count, k) == (index + k) % count,
    decreases k,
{
    if k > 0 {
        lemma_next_times_mod(index, count, (k - 1) as nat);
        let x = index + k - 1;
        let q = x / count;
        let r = x % count;
        vstd::arithmetic::div_mod::lemma_fundamental_div_mod(x, count);
        vstd::arithmetic::div_mod::lemma_mod_pos_bound(x, count);
        if r + 1 < count {
            assert(index + k == q * count + (r + 1)) by (nonlinear_arith)
                requires x == count * q + r, index + k == x + 1;
            vstd::arithmetic::div_mod::lemma_fundamental_div_mod_converse(index + k, count, q, r + 1);
            vstd::arithmetic::div_mod::lemma_small_mod((r + 1) as nat, count as nat);
        } else {
            assert(index + k == (q + 1) * count + 0) by (nonlinear_arith)
                requires x == count * q + r, index + k == x + 1, r + 1 == count;
            vstd::arithmetic::div_mod::lemma_fundamental_div_mod_converse(index + k, count, q + 1, 0);
            vstd::arithmetic::div_mod::lemma_fundamental_div_mod_converse(count, count, 1, 0);
        }
    } else {
        vstd::arithmetic::div_mod::lemma_small_mod(index as nat, count as nat);
    }
}

proof fn lemma_previous_times_mod(index: int, count: int, k: nat)
    requires
        count > 0,
        0 <= index < count,
    ensures
        previous_times(index, count, k) == (index + (count - 1) * k) % count,
    decreases k,
{
    if k > 0 {
        lemma_previous_times_mod(index, count, (k - 1) as nat);
        let x = index + (count - 1) * (k - 1);
        let y = index + (count - 1) * k;
        assert(x >= 0 && y == x + (count - 1)) by (nonlinear_arith)
            requires count > 0, k > 0, index >= 0, x == index + (count - 1) * (k - 1),
                y == index + (count - 1) * k;
        let q = x / count;
        let r = x % count;
        vstd::arithmetic::div_mod::lemma_fundamental_div_mod(x, count);
        vstd::arithmetic::div_mod::lemma_mod_pos_bound(x, count);
        if r > 0 {
            assert(y == (q + 1) * count + (r - 1)) by (nonlinear_arith)
                requires x == count * q + r, y == x + (count - 1);
            vstd::arithmetic::div_mod::lemma_fundamental_div_mod_converse(y, count, q + 1, r - 1);
        } else {
            assert(y == q * count + (count - 1)) by (nonlinear_arith)
                requires x == count * q + r, y == x + (count - 1), r == 0;
            vstd::arithmetic::div_mod::lemma_fundamental_div_mod_converse(y, count, q, count - 1);
        }
    } else {
        vstd::arithmetic::div_mod::lemma_small_mod(index as nat, count as nat);
    }
}

/// Stepping forward once per tab comes back to the tab one started from, and
/// so does stepping backward once per tab.
pub proof fn lemma_full_cycle(index: int, count: int)
    requires
        count > 0,
        0 <= index < count,
    ensures
        next_times(index, count, count as nat) == index,
        previous_times(index, count, count as nat) == index,
{
    lemma_next_times_mod(index, count, count as nat);
    lemma_previous_times_mod(index, count, count as nat);
    vstd::arithmetic::div_mod::lemma_fundamental_div_mod_converse(index + count, count, 1, index);
    vstd::arithmetic::div_mod::lemma_fundamental_div_mod_converse(
        index + (count - 1) * count,
        count,
        count - 1,
        index,
    );
}

} // verus!
