//! Paging through a chat's history until enough distinct messages are read.
//!
//! Telegram hands out history in pages that may repeat the message a page
//! starts from and may, while older history is still loading, bring nothing
//! new. The pager decides what to ask for next and which messages of each
//! page to keep; the caller performs the requests.
use vstd::prelude::*;

verus! {

/// The indices of the messages of `page`, from `start` on, that are kept
/// when `collected` messages are already kept: each message whose id was
/// not kept before, until `requested` messages are kept.
pub open spec fn kept_indices(collected: Seq<i64>, page: Seq<i64>, start: int, requested: int) -> Seq<
    int,
>
    decreases page.len() - start,
{
    if start < 0 || start >= page.len() || collected.len() >= requested {
        Seq::empty()
    } else if collected.contains(page[start]) {
        kept_indices(collected, page, start + 1, requested)
    } else {
        seq![start] + kept_indices(collected.push(page[start]), page, start + 1, requested)
    }
}

/// The ids that `kept_indices` picks out of `page`.
pub open spec fn ids_at(page: Seq<i64>, idx: Seq<int>) -> Seq<i64> {
    idx.map_values(|i: int| page[i])
}

/// The state of a history read.
pub struct HistoryPager {
    requested: usize,
    collected: Vec<i64>,
    from_message_id: i64,
    no_progress_attempts: u8,
    done: bool,
}

impl HistoryPager {
    /// How many messages were asked for.
    pub closed spec fn requested(&self) -> int {
        self.requested as int
    }

    /// The ids of the messages kept so far, in the order they were kept.
    pub closed spec fn collected(&self) -> Seq<i64> {
        self.collected@
    }

    /// The message the next page starts from (0: the newest).
    pub closed spec fn from_message_id(&self) -> i64 {
        self.from_message_id
    }

    /// How many pages in a row brought nothing new.
    pub closed spec fn no_progress_attempts(&self) -> int {
        self.no_progress_attempts as int
    }

    /// Whether the read has stopped before reaching the requested count.
    pub closed spec fn stopped(&self) -> bool {
        self.done
    }

    /// The pager's invariant: the kept ids are distinct and no more than
    /// requested, and fewer than three fruitless pages in a row have come
    /// unless the read has stopped.
    pub closed spec fn wf(&self) -> bool {
        &&& self.collected@.no_duplicates()
        &&& self.collected@.len() <= self.requested
        &&& self.requested >= 1
        &&& self.no_progress_attempts <= 3
        &&& (self.no_progress_attempts >= 3 ==> self.done)
    }

    /// Whether another page is to be requested.
    pub open spec fn wants_more(&self) -> bool {
        !self.stopped() && self.collected().len() < self.requested()
    }

    /// A bound on the pages still to come: it drops with every page that
    /// does not stop the read.
    pub open spec fn budget(&self) -> int {
        (self.requested() - self.collected().len()) * 4 + (3 - self.no_progress_attempts())
    }

    /// A read of `limit` messages, starting at the newest.
    pub fn new(limit: i32) -> (p: Self)
        requires
            limit >= 1,
        ensures
            p.wf(),
            p.requested() == limit,
            p.collected() == Seq::<i64>::empty(),
            p.from_message_id() == 0,
            p.no_progress_attempts() == 0,
            !p.stopped(),
    {
        HistoryPager {
            requested: limit as usize,
            collected: Vec::new(),
            from_message_id: 0,
            no_progress_attempts: 0,
            done: false,
        }
    }

    /// The ids of the messages kept so far.
    pub fn collected_ids(&self) -> (res: Vec<i64>)
        ensures
            res@ == self.collected(),
    {
        self.collected.clone()
    }

    /// The next page to request, as the message it starts from and how many
    /// messages it holds: what is still missing, one more when the page
    /// starts from a message already seen, at most 100; `None` when the read
    /// is over.
    pub fn next_request(&self) -> (res: Option<(i64, i32)>)
        requires
            self.wf(),
        ensures
            self.wants_more() ==> res == Some(
                (
                    self.from_message_id(),
                    (if self.requested() - self.collected().len() + (if self.from_message_id()
                        != 0 {
                        1int
                    } else {
                        0int
                    }) <= 100 {
                        self.requested() - self.collected().len() + (if self.from_message_id()
                            != 0 {
                            1int
                        } else {
                            0int
                        })
                    } else {
                        100int
                    }) as i32,
                ),
            ),
            !self.wants_more() ==> res is None,
            res matches Some((_, l)) ==> 1 <= l <= 100,
    {
        if self.done || self.collected.len() >= self.requested {
            return None;
        }
        let remaining = self.requested - self.collected.len();
        let extra: usize = if self.from_message_id != 0 { 1 } else { 0 };
        let page_limit: usize = if remaining <= 100 - extra { remaining + extra } else { 100 };
        Some((self.from_message_id, page_limit as i32))
    }

    fn contains(v: &Vec<i64>, x: i64) -> (res: bool)
        ensures
            res == v@.contains(x),
    {
        let mut i: usize = 0;
        while i < v.len()
            invariant
                i <= v@.len(),
                forall|j: int| 0 <= j < i ==> v@[j] != x,
            decreases v.len() - i,
        {
            if v[i] == x {
                return true;
            }
            i = i + 1;
        }
        false
    }

    /// Takes in the ids of a page that `next_request` asked for and returns
    /// the indices of the page's messages to keep, in order: each message
    /// whose id was not kept before, until the requested count is reached.
    /// An empty page ends the read; a page that brings nothing new counts
    /// as fruitless, and the third fruitless page in a row ends the read;
    /// the next page starts from the last message of this one.
    pub fn accept_page(&mut self, page: &Vec<i64>) -> (kept: Vec<usize>)
        requires
            old(self).wf(),
            old(self).wants_more(),
        ensures
            final(self).wf(),
            final(self).requested() == old(self).requested(),
            page@.len() == 0 ==> kept@.len() == 0 && final(self).stopped()
                && final(self).collected() == old(self).collected(),
            page@.len() > 0 ==> {
                let idx = kept_indices(old(self).collected(), page@, 0, old(self).requested());
                &&& kept@.map_values(|i: usize| i as int) == idx
                &&& final(self).collected() == old(self).collected() + ids_at(page@, idx)
                &&& final(self).from_message_id() == page@.last()
                &&& idx.len() == 0 ==> final(self).no_progress_attempts()
                    == old(self).no_progress_attempts() + 1
                    && (final(self).stopped() <==> final(self).no_progress_attempts() >= 3)
                &&& idx.len() > 0 ==> final(self).no_progress_attempts() == 0
                    && !final(self).stopped()
            },
            final(self).stopped() || final(self).budget() < old(self).budget(),
    {
        if page.len() == 0 {
            self.done = true;
            return Vec::new();
        }
        let ghost c0 = self.collected@;
        let ghost req = self.requested as int;
        let ghost whole = kept_indices(c0, page@, 0, req);
        let mut kept: Vec<usize> = Vec::new();
        let mut j: usize = 0;
        while j < page.len() && self.collected.len() < self.requested
            invariant
                0 <= j <= page@.len(),
                self.requested == req,
                req >= 1,
                self.collected@.no_duplicates(),
                self.collected@.len() <= req,
                self.collected@ == c0 + ids_at(page@, kept@.map_values(|i: usize| i as int)),
                kept@.map_values(|i: usize| i as int) + kept_indices(self.collected@, page@, j as int, req)
                    == whole,
                forall|t: int| 0 <= t < kept@.len() ==> kept@[t] < j,
                self.no_progress_attempts == old(self).no_progress_attempts,
                self.done == old(self).done,
                self.from_message_id == old(self).from_message_id,
                self.no_progress_attempts < 3,
            decreases page.len() - j,
        {
            let ghost before = kept@.map_values(|i: usize| i as int);
            let ghost cprev = self.collected@;
            let id = page[j];
            if !Self::contains(&self.collected, id) {
                assert(kept_indices(cprev, page@, j as int, req) == seq![j as int] + kept_indices(
                    cprev.push(id),
                    page@,
                    j + 1,
                    req,
                ));
                self.collected.push(id);
                kept.push(j);
                proof {
                    assert(kept@.map_values(|i: usize| i as int) =~= before.push(j as int));
                    assert(ids_at(page@, before.push(j as int)) =~= ids_at(page@, before).push(
                        page@[j as int],
                    ));
                    assert(before.push(j as int) + kept_indices(self.collected@, page@, j + 1, req)
                        =~= before + kept_indices(cprev, page@, j as int, req));
                    assert forall|a: int, b: int|
                        0 <= a < self.collected@.len() && 0 <= b < self.collected@.len() && a != b
                        implies self.collected@[a] != self.collected@[b] by {
                        if a < cprev.len() && b < cprev.len() {
                            assert(cprev[a] != cprev[b]);
                        } else if a < cprev.len() {
                            assert(cprev.contains(cprev[a]));
                        } else {
                            assert(cprev.contains(cprev[b]));
                        }
                    }
                }
            } else {
                assert(kept_indices(cprev, page@, j as int, req) == kept_indices(
                    cprev,
                    page@,
                    j + 1,
                    req,
                ));
            }
            j = j + 1;
        }
        proof {
            assert(kept_indices(self.collected@, page@, j as int, req) =~= Seq::<int>::empty());
            assert(kept@.map_values(|i: usize| i as int) =~= whole);
        }
        if kept.len() == 0 {
            self.no_progress_attempts = self.no_progress_attempts + 1;
            if self.no_progress_attempts >= 3 {
                self.done = true;
            }
        } else {
            self.no_progress_attempts = 0;
        }
        self.from_message_id = page[page.len() - 1];
        kept
    }
}


/// What every read keeps: the kept messages are distinct and no more than
/// were requested, and the bound on the pages still to come is never
/// negative, so a read ends.
pub proof fn lemma_pager_invariant(p: HistoryPager)
    requires
        p.wf(),
    ensures
        p.collected().no_duplicates(),
        p.collected().len() <= p.requested(),
        p.budget() >= 0,
{
}

} // verus!
