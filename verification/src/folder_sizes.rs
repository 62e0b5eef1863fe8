use vstd::prelude::*;

verus! {

/// Per row of the listing, whether a background job (a folder's size, its
/// extended information, a thumbnail) was asked for and not yet finished
/// (`pending`), and whether its result is known (`done`).
pub struct JobMarks {
    pub pending: Vec<bool>,
    pub done: Vec<bool>,
}

/// The rows from `first` to `last` (excluded, and no further than the
/// end) that are eligible and have neither a pending job nor a result, in
/// order.
pub open spec fn rows_to_request(first: int, last: int, eligible: Seq<bool>, pending: Seq<bool>, done: Seq<bool>) -> Seq<int>
    decreases last - first,
{
    let end = if last < eligible.len() { last } else { eligible.len() as int };
    if first >= end || first < 0 {
        seq![]
    } else if eligible[first] && !pending[first] && !done[first] {
        seq![first] + rows_to_request(first + 1, last, eligible, pending, done)
    } else {
        rows_to_request(first + 1, last, eligible, pending, done)
    }
}

/// Whether row `k` lies in the visible range and needs a job.
pub open spec fn needs_job(k: int, first: int, last: int, eligible: Seq<bool>, pending: Seq<bool>, done: Seq<bool>) -> bool {
    &&& first <= k < last
    &&& 0 <= k < eligible.len()
    &&& eligible[k] && !pending[k] && !done[k]
}

impl JobMarks {
    /// No job asked for and no result, for `n` rows.
    pub fn new(n: usize) -> (m: Self)
        ensures
            m.pending@ == Seq::new(n as nat, |k: int| false),
            m.done@ == Seq::new(n as nat, |k: int| false),
    {
        let mut pending: Vec<bool> = Vec::new();
        let mut done: Vec<bool> = Vec::new();
        let mut i: usize = 0;
        while i < n
            invariant
                i <= n,
                pending@ == Seq::new(i as nat, |k: int| false),
                done@ == Seq::new(i as nat, |k: int| false),
            decreases n - i,
        {
            pending.push(false);
            done.push(false);
            i = i + 1;
        }
        JobMarks { pending, done }
    }

    /// Asks for the jobs of the visible rows: every row from `first` to
    /// `last` (the end of the listing at most) that is `eligible` and has no
    /// pending job and no result is returned, in order, and marked pending.
    pub fn schedule_visible(&mut self, first: usize, last: usize, eligible: &Vec<bool>) -> (rows: Vec<usize>)
        requires
            old(self).pending@.len() == eligible@.len(),
            old(self).done@.len() == eligible@.len(),
        ensures
            rows@.map_values(|r: usize| r as int) == rows_to_request(
                first as int,
                last as int,
                eligible@,
                old(self).pending@,
                old(self).done@,
            ),
            final(self).done@ == old(self).done@,
            final(self).pending@.len() == old(self).pending@.len(),
            forall|k: int|
                0 <= k < eligible@.len() ==> #[trigger] final(self).pending@[k] == (old(self).pending@[k]
                    || needs_job(k, first as int, last as int, eligible@, old(self).pending@, old(self).done@)),
    {
        let ghost p0 = self.pending@;
        let n = eligible.len();
        let end = if last < n { last } else { n };
        let mut rows: Vec<usize> = Vec::new();
        let mut i: usize = first;
        if i < end {
            while i < end
                invariant
                    first <= i <= end,
                    end <= n,
                    end == (if last < n { last } else { n }),
                    n == eligible@.len(),
                    self.pending@.len() == n,
                    self.done@.len() == n,
                    self.done@ == old(self).done@,
                    p0 == old(self).pending@,
                    rows@.map_values(|r: usize| r as int) + rows_to_request(i as int, last as int, eligible@, p0, self.done@)
                        == rows_to_request(first as int, last as int, eligible@, p0, self.done@),
                    forall|k: int|
                        0 <= k < n ==> #[trigger] self.pending@[k] == (p0[k] || (needs_job(k, first as int, last as int, eligible@, p0, self.done@) && k < i)),
                decreases end - i,
            {
                let ghost before = rows@;
                if eligible[i] && !self.pending[i] && !self.done[i] {
                    rows.push(i);
                    self.pending.set(i, true);
                    assert(rows@.map_values(|r: usize| r as int) =~= before.map_values(|r: usize| r as int).push(i as int));
                    assert(seq![i as int] + rows_to_request(i + 1, last as int, eligible@, p0, self.done@)
                        == rows_to_request(i as int, last as int, eligible@, p0, self.done@));
                    assert(before.map_values(|r: usize| r as int).push(i as int) + rows_to_request(i + 1, last as int, eligible@, p0, self.done@)
                        =~= before.map_values(|r: usize| r as int) + (seq![i as int] + rows_to_request(i + 1, last as int, eligible@, p0, self.done@)));
                }
                i = i + 1;
            }
        }
        assert(rows_to_request(i as int, last as int, eligible@, p0, self.done@) =~= Seq::<int>::empty());
        assert(rows@.map_values(|r: usize| r as int) + Seq::<int>::empty() =~= rows@.map_values(|r: usize| r as int));
        rows
    }

    /// Forgets the jobs of the rows that `matching` marks (the folders of
    /// the listing when it is refreshed): neither pending nor done.
    pub fn forget(&mut self, matching: &Vec<bool>)
        requires
            old(self).pending@.len() == matching@.len(),
            old(self).done@.len() == matching@.len(),
        ensures
            final(self).pending@.len() == matching@.len(),
            final(self).done@.len() == matching@.len(),
            forall|k: int| 0 <= k < matching@.len() ==> #[trigger] final(self).pending@[k] == (old(self).pending@[k] && !matching@[k]),
            forall|k: int| 0 <= k < matching@.len() ==> #[trigger] final(self).done@[k] == (old(self).done@[k] && !matching@[k]),
    {
        let n = matching.len();
        let mut i: usize = 0;
        while i < n
            invariant
                i <= n,
                n == matching@.len(),
                self.pending@.len() == n,
                self.done@.len() == n,
                forall|k: int| 0 <= k < n ==> #[trigger] self.pending@[k] == (old(self).pending@[k] && !(matching@[k] && k < i)),
                forall|k: int| 0 <= k < n ==> #[trigger] self.done@[k] == (old(self).done@[k] && !(matching@[k] && k < i)),
            decreases n - i,
        {
            if matching[i] {
                self.pending.set(i, false);
                self.done.set(i, false);
            }
            i = i + 1;
        }
    }
}

proof fn lemma_nothing_left(f0: int, first: int, last: int, e: Seq<bool>, p: Seq<bool>, d: Seq<bool>, p2: Seq<bool>)
    requires
        0 <= f0 <= first,
        p.len() == e.len(),
        d.len() == e.len(),
        p2.len() == e.len(),
        forall|k: int| 0 <= k < e.len() ==> #[trigger] p2[k] == (p[k] || needs_job(k, f0, last, e, p, d)),
    ensures
        rows_to_request(first, last, e, p2, d) == Seq::<int>::empty(),
    decreases last - first,
{
    let end = if last < e.len() { last } else { e.len() as int };
    if first < end {
        assert(p2[first] == (p[first] || needs_job(first, f0, last, e, p, d)));
        lemma_nothing_left(f0, first + 1, last, e, p, d, p2);
    }
}

/// Asking for the jobs of the same visible rows again asks for nothing:
/// every row it would choose is pending after the first time.
pub proof fn law_schedule_once(first: int, last: int, e: Seq<bool>, p: Seq<bool>, d: Seq<bool>, p2: Seq<bool>)
    requires
        first >= 0,
        p.len() == e.len(),
        d.len() == e.len(),
        p2.len() == e.len(),
        forall|k: int| 0 <= k < e.len() ==> #[trigger] p2[k] == (p[k] || needs_job(k, first, last, e, p, d)),
    ensures
        rows_to_request(first, last, e, p2, d) == Seq::<int>::empty(),
{
    lemma_nothing_left(first, first, last, e, p, d, p2);
}

/// The rows asked for are exactly the visible rows that need a job, each
/// once, from the first to the last.
pub proof fn law_rows_to_request(first: int, last: int, e: Seq<bool>, p: Seq<bool>, d: Seq<bool>)
    requires
        first >= 0,
        p.len() == e.len(),
        d.len() == e.len(),
    ensures
        forall|k: int| rows_to_request(first, last, e, p, d).contains(k) <==> needs_job(k, first, last, e, p, d),
        forall|a: int, b: int| 0 <= a < b < rows_to_request(first, last, e, p, d).len()
            ==> rows_to_request(first, last, e, p, d)[a] < rows_to_request(first, last, e, p, d)[b],
        forall|a: int| 0 <= a < rows_to_request(first, last, e, p, d).len()
            ==> first <= rows_to_request(first, last, e, p, d)[a],
    decreases last - first,
{
    let end = if last < e.len() { last } else { e.len() as int };
    let r = rows_to_request(first, last, e, p, d);
    if first >= end {
        assert forall|k: int| r.contains(k) <==> needs_job(k, first, last, e, p, d) by {
            assert(r.len() == 0);
        }
    } else {
        law_rows_to_request(first + 1, last, e, p, d);
        let rest = rows_to_request(first + 1, last, e, p, d);
        if e[first] && !p[first] && !d[first] {
            assert(r == seq![first] + rest);
            assert forall|k: int| r.contains(k) <==> needs_job(k, first, last, e, p, d) by {
                if k == first {
                    assert(r[0] == first);
                    assert(r.contains(k));
                } else {
                    assert(rest.contains(k) <==> needs_job(k, first + 1, last, e, p, d));
                    assert(needs_job(k, first, last, e, p, d) <==> needs_job(k, first + 1, last, e, p, d));
                    if r.contains(k) {
                        let j = choose|j: int| 0 <= j < r.len() && r[j] == k;
                        assert(rest[j - 1] == k);
                    }
                    if rest.contains(k) {
                        let j = choose|j: int| 0 <= j < rest.len() && rest[j] == k;
                        assert(r[j + 1] == k);
                    }
                }
            }
            assert forall|a: int, b: int| 0 <= a < b < r.len() implies r[a] < r[b] by {
                if a == 0 {
                    assert(r[b] == rest[b - 1]);
                } else {
                    assert(r[a] == rest[a - 1] && r[b] == rest[b - 1]);
                }
            }
            assert forall|a: int| 0 <= a < r.len() implies first <= r[a] by {
                if a > 0 {
                    assert(r[a] == rest[a - 1]);
                }
            }
        } else {
            assert(r == rest);
            assert forall|k: int| r.contains(k) <==> needs_job(k, first, last, e, p, d) by {
                assert(rest.contains(k) <==> needs_job(k, first + 1, last, e, p, d));
                if k == first {
                    if rest.contains(k) {
                        let j = choose|j: int| 0 <= j < rest.len() && rest[j] == k;
                        assert(first + 1 <= rest[j]);
                    }
                } else {
                    assert(needs_job(k, first, last, e, p, d) <==> needs_job(k, first + 1, last, e, p, d));
                }
            }
        }
    }
}

} // verus!
