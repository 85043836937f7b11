//! The batch orchestrator's bookkeeping: a counting permit pool caps
//! how many decode operations are in flight at once, and the batch
//! state records one outcome per input file, so a finished batch
//! covers every input exactly once.

use vstd::prelude::*;
use crate::thumbnail::{spec_data_url, spec_thumb_error_message, ThumbnailError, data_url_for};

verus! {

/// A counting permit pool: one unit of concurrency budget per permit.
/// Decode work runs only while holding a permit, so no more than
/// `capacity` operations are ever in flight at once.
pub struct PermitPool {
    /// The fixed number of permits
    pub capacity: u32,
    /// How many permits are currently held
    pub in_flight: u32,
}

impl PermitPool {
    /// Well-formedness: held permits never exceed the capacity.
    pub open spec fn wf(&self) -> bool {
        self.in_flight <= self.capacity
    }

    /// A fresh pool with all permits free.
    pub fn new(capacity: u32) -> (r: Self)
        ensures
            r.capacity == capacity,
            r.in_flight == 0,
            r.wf(),
    {
        PermitPool { capacity, in_flight: 0 }
    }

    /// Takes a permit when one is free.
    pub fn try_acquire(&mut self) -> (r: bool)
        requires
            old(self).wf(),
        ensures
            final(self).wf(),
            final(self).capacity == old(self).capacity,
            r == (old(self).in_flight < old(self).capacity),
            final(self).in_flight == old(self).in_flight + if r {
                1int
            } else {
                0int
            },
    {
        if self.in_flight < self.capacity {
            self.in_flight = self.in_flight + 1;
            true
        } else {
            false
        }
    }

    /// Returns a permit.
    pub fn release(&mut self)
        requires
            old(self).wf(),
            old(self).in_flight >= 1,
        ensures
            final(self).wf(),
            final(self).capacity == old(self).capacity,
            final(self).in_flight == old(self).in_flight - 1,
    {
        self.in_flight = self.in_flight - 1;
    }
}

/// Response for thumbnail generation request.
#[derive(Debug, Clone)]
pub struct ThumbnailResponse {
    /// Whether generation succeeded
    pub success: bool,
    /// The thumbnail's path on success
    pub thumbnail_path: Option<String>,
    /// An inline data representation of the thumbnail, if it could be
    /// read back
    pub thumbnail_data_url: Option<String>,
    /// The failure message on failure
    pub error: Option<String>,
}

/// Whether a response reports exactly one generation outcome: on
/// success the path and, where the file could be read back, its inline
/// representation; on failure the rendered message and nothing else.
pub open spec fn response_matches(
    outcome: Result<String, ThumbnailError>,
    data: Option<Vec<u8>>,
    r: ThumbnailResponse,
) -> bool {
    match outcome {
        Ok(path) => {
            &&& r.success
            &&& r.thumbnail_path is Some && r.thumbnail_path->0@ == path@
            &&& (match data {
                Some(d) => r.thumbnail_data_url is Some && r.thumbnail_data_url->0@
                    == spec_data_url(d@),
                None => r.thumbnail_data_url is None,
            })
            &&& r.error is None
        },
        Err(e) => {
            &&& !r.success
            &&& r.thumbnail_path is None
            &&& r.thumbnail_data_url is None
            &&& r.error is Some && r.error->0@ == spec_thumb_error_message(e)
        },
    }
}

/// Builds the response for one file from its generation outcome and
/// the thumbnail bytes read back for inline display, if any.
pub fn make_thumbnail_response(
    outcome: Result<String, ThumbnailError>,
    data: &Option<Vec<u8>>,
) -> (r: ThumbnailResponse)
    ensures
        response_matches(outcome, *data, r),
{
    match outcome {
        Ok(path) => {
            let data_url = match data {
                Some(d) => Some(data_url_for(d)),
                None => None,
            };
            ThumbnailResponse {
                success: true,
                thumbnail_path: Some(path),
                thumbnail_data_url: data_url,
                error: None,
            }
        },
        Err(e) => ThumbnailResponse {
            success: false,
            thumbnail_path: None,
            thumbnail_data_url: None,
            error: Some(e.message()),
        },
    }
}

/// Builds one response per outcome, in order: every input's outcome is
/// reported exactly once and a failure never drops its siblings.
pub fn batch_collect(outcomes: Vec<(Result<String, ThumbnailError>, Option<Vec<u8>>)>) -> (r: Vec<
    ThumbnailResponse,
>)
    ensures
        r@.len() == outcomes@.len(),
        forall|i: int|
            0 <= i < r@.len() ==> response_matches(
                outcomes@[i].0,
                outcomes@[i].1,
                #[trigger] r@[i],
            ),
{
    let mut r: Vec<ThumbnailResponse> = Vec::new();
    let mut outcomes = outcomes;
    let ghost all = outcomes@;
    let n = outcomes.len();
    proof {
        assert(all.len() == n);
    }
    let mut i: usize = 0;
    while outcomes.len() > 0
        invariant
            all.len() <= usize::MAX,
            i + outcomes@.len() == all.len(),
            r@.len() == i,
            outcomes@ =~= all.subrange(i as int, all.len() as int),
            forall|k: int|
                0 <= k < i ==> response_matches(all[k].0, all[k].1, #[trigger] r@[k]),
        decreases outcomes@.len(),
    {
        let ghost before = outcomes@;
        let (outcome, data) = outcomes.remove(0);
        proof {
            assert(before[0] == all[i as int]);
        }
        let resp = make_thumbnail_response(outcome, &data);
        r.push(resp);
        i = i + 1;
        proof {
            assert(outcomes@ =~= all.subrange(i as int, all.len() as int));
        }
    }
    r
}

/// How many slots of a response list are filled.
pub open spec fn num_some(s: Seq<Option<ThumbnailResponse>>) -> nat
    decreases s.len(),
{
    if s.len() == 0 {
        0
    } else {
        num_some(s.drop_last()) + if s.last() is Some {
            1nat
        } else {
            0nat
        }
    }
}

proof fn lemma_num_some_le(s: Seq<Option<ThumbnailResponse>>)
    ensures
        num_some(s) <= s.len(),
    decreases s.len(),
{
    if s.len() > 0 {
        lemma_num_some_le(s.drop_last());
    }
}

proof fn lemma_num_some_update(s: Seq<Option<ThumbnailResponse>>, i: int, v: ThumbnailResponse)
    requires
        0 <= i < s.len(),
        s[i] is None,
    ensures
        num_some(s.update(i, Some(v))) == num_some(s) + 1,
    decreases s.len(),
{
    let t = s.update(i, Some(v));
    if i == s.len() - 1 {
        assert(t.drop_last() =~= s.drop_last());
    } else {
        assert(t.drop_last() =~= s.drop_last().update(i, Some(v)));
        lemma_num_some_update(s.drop_last(), i, v);
    }
}

proof fn lemma_num_some_full(s: Seq<Option<ThumbnailResponse>>)
    requires
        num_some(s) == s.len(),
    ensures
        forall|i: int| 0 <= i < s.len() ==> (#[trigger] s[i]) is Some,
    decreases s.len(),
{
    if s.len() > 0 {
        lemma_num_some_le(s.drop_last());
        lemma_num_some_full(s.drop_last());
        assert(forall|i: int| 0 <= i < s.len() - 1 ==> s[i] == s.drop_last()[i]);
    }
}

proof fn lemma_num_some_bound_excluding(s: Seq<Option<ThumbnailResponse>>, k: int, idx: int)
    requires
        0 <= idx < k <= s.len(),
        s[idx] is None,
        forall|i: int| 0 <= i < s.len() && (#[trigger] s[i]) is Some ==> i < k,
    ensures
        num_some(s) < k,
    decreases s.len(),
{
    if s.len() == k {
        if idx == k - 1 {
            lemma_num_some_le(s.drop_last());
        } else {
            lemma_num_some_bound_excluding(s.drop_last(), k - 1, idx);
        }
    } else {
        assert(s.last() is None);
        lemma_num_some_bound_excluding(s.drop_last(), k, idx);
    }
}

/// The batch's bookkeeping: one slot per input file, filled as
/// outcomes arrive, in any order.
pub struct BatchState {
    /// Number of input files
    pub total: usize,
    /// How many files have been handed out to workers
    pub started: usize,
    /// How many outcomes have arrived
    pub finished: usize,
    /// One slot per input file, filled when its outcome arrives
    pub responses: Vec<Option<ThumbnailResponse>>,
}

/// Consistency of the batch with its permit pool: a permit is held for
/// exactly each started, unfinished file, every filled slot belongs to
/// a started file, and the filled slots count the finished files.
pub open spec fn batch_consistent(b: BatchState, pool: PermitPool) -> bool {
    &&& b.responses@.len() == b.total
    &&& b.finished <= b.started <= b.total
    &&& pool.in_flight == b.started - b.finished
    &&& forall|i: int|
        0 <= i < b.responses@.len() && (#[trigger] b.responses@[i]) is Some ==> i < b.started
    &&& num_some(b.responses@) == b.finished
}

/// Concurrency bound: in every consistent state of a well-formed pool,
/// the number of in-flight files never exceeds the pool's capacity.
pub proof fn lemma_concurrency_bounded(b: BatchState, pool: PermitPool)
    requires
        batch_consistent(b, pool),
        pool.wf(),
    ensures
        b.started - b.finished <= pool.capacity,
{
}

impl BatchState {
    /// A fresh batch of `total` files: nothing started, every slot
    /// empty.
    pub fn new(total: usize, pool: &PermitPool) -> (r: Self)
        ensures
            r.total == total,
            r.started == 0,
            r.finished == 0,
            batch_consistent(r, *pool) <== pool.in_flight == 0,
    {
        let mut responses: Vec<Option<ThumbnailResponse>> = Vec::new();
        let mut i: usize = 0;
        while i < total
            invariant
                i <= total,
                responses@.len() == i,
                forall|j: int| 0 <= j < i ==> (#[trigger] responses@[j]) is None,
                num_some(responses@) == 0,
            decreases total - i,
        {
            let ghost before = responses@;
            responses.push(None);
            i = i + 1;
            proof {
                assert(responses@.drop_last() =~= before);
            }
        }
        BatchState { total, started: 0, finished: 0, responses }
    }

    /// Hands out the next file when one is pending and a permit is
    /// free; the caller starts decode work for the returned index.
    pub fn start_next(&mut self, pool: &mut PermitPool) -> (r: Option<usize>)
        requires
            batch_consistent(*old(self), *old(pool)),
            old(pool).wf(),
        ensures
            batch_consistent(*final(self), *final(pool)),
            final(pool).wf(),
            final(pool).capacity == old(pool).capacity,
            final(self).total == old(self).total,
            final(self).finished == old(self).finished,
            final(self).responses@ == old(self).responses@,
            match r {
                Some(i) => {
                    &&& old(self).started < old(self).total
                    &&& old(pool).in_flight < old(pool).capacity
                    &&& i == old(self).started
                    &&& final(self).started == old(self).started + 1
                    &&& final(pool).in_flight == old(pool).in_flight + 1
                },
                None => {
                    &&& (old(self).started == old(self).total || old(pool).in_flight >= old(
                        pool,
                    ).capacity)
                    &&& final(self).started == old(self).started
                    &&& final(pool).in_flight == old(pool).in_flight
                },
            },
    {
        if self.started < self.total {
            if pool.try_acquire() {
                let i = self.started;
                self.started = self.started + 1;
                Some(i)
            } else {
                None
            }
        } else {
            None
        }
    }

    /// Records the outcome of one started file and returns its permit.
    /// One file's failure is recorded like any other outcome and never
    /// blocks its siblings.
    pub fn finish(&mut self, pool: &mut PermitPool, index: usize, resp: ThumbnailResponse)
        requires
            batch_consistent(*old(self), *old(pool)),
            old(pool).wf(),
            index < old(self).started,
            old(self).responses@[index as int] is None,
        ensures
            batch_consistent(*final(self), *final(pool)),
            final(pool).wf(),
            final(pool).capacity == old(pool).capacity,
            final(self).total == old(self).total,
            final(self).started == old(self).started,
            final(self).finished == old(self).finished + 1,
            final(self).responses@ == old(self).responses@.update(index as int, Some(resp)),
            final(pool).in_flight == old(pool).in_flight - 1,
    {
        proof {
            lemma_num_some_bound_excluding(
                self.responses@,
                self.started as int,
                index as int,
            );
            assert(self.finished < self.started);
        }
        pool.release();
        self.responses.set(index, Some(resp));
        self.finished = self.finished + 1;
        proof {
            lemma_num_some_update(old(self).responses@, index as int, resp);
        }
    }

    /// Whether every outcome has arrived.
    pub fn is_complete(&self) -> (r: bool)
        ensures
            r == (self.finished == self.total),
    {
        self.finished == self.total
    }

    /// The outcomes of a finished batch: one response per input file,
    /// every input covered exactly once.
    pub fn into_responses(self, pool: &PermitPool) -> (r: Vec<ThumbnailResponse>)
        requires
            batch_consistent(self, *pool),
            self.finished == self.total,
        ensures
            r@.len() == self.total,
            forall|i: int|
                0 <= i < r@.len() ==> Some(#[trigger] r@[i]) == self.responses@[i],
    {
        proof {
            lemma_num_some_full(self.responses@);
        }
        let mut r: Vec<ThumbnailResponse> = Vec::new();
        let mut i: usize = 0;
        let mut responses = self.responses;
        let ghost all = responses@;
        let n = responses.len();
        proof {
            assert(all.len() == n);
        }
        while responses.len() > 0
            invariant
                all.len() <= usize::MAX,
                i + responses@.len() == all.len(),
                r@.len() == i,
                responses@ =~= all.subrange(i as int, all.len() as int),
                forall|j: int| 0 <= j < all.len() ==> (#[trigger] all[j]) is Some,
                forall|j: int| 0 <= j < i ==> Some(#[trigger] r@[j]) == all[j],
            decreases responses@.len(),
        {
            let ghost before = responses@;
            let slot = responses.remove(0);
            proof {
                assert(before[0] == all[i as int]);
            }
            match slot {
                Some(resp) => {
                    r.push(resp);
                },
                None => {
                    proof {
                        assert(false);
                    }
                },
            }
            i = i + 1;
            proof {
                assert(responses@ =~= all.subrange(i as int, all.len() as int));
            }
        }
        r
    }
}

} // verus!
