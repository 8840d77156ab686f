//! Admission of jobs under a concurrency limit: jobs beyond the limit wait in order.
use vstd::prelude::*;

verus! {

/// Jobs admitted to run, at most `concurrent_limit` at a time, and jobs waiting, in
/// the order they were pushed.
#[derive(Debug)]
pub struct Jobs<J> {
    running: usize,
    delay_queue: Vec<J>,
    concurrent_limit: usize,
}

impl<J> Jobs<J> {
    #[verifier::type_invariant]
    spec fn within_limit(&self) -> bool {
        &&& 0 < self.concurrent_limit
        &&& self.running <= self.concurrent_limit
        &&& self.delay_queue@.len() > 0 ==> self.running == self.concurrent_limit
    }

    /// The number of admitted jobs that have not finished.
    pub closed spec fn running_count(&self) -> nat {
        self.running as nat
    }

    /// The waiting jobs, first to be admitted first.
    pub closed spec fn waiting(&self) -> Seq<J> {
        self.delay_queue@
    }

    /// The most jobs that run at a time.
    pub closed spec fn limit(&self) -> nat {
        self.concurrent_limit as nat
    }

    /// No job, with at most `concurrent_limit` running at a time.
    pub fn new(concurrent_limit: usize) -> (j: Jobs<J>)
        requires
            concurrent_limit > 0,
        ensures
            j.running_count() == 0,
            j.waiting() == Seq::<J>::empty(),
            j.limit() == concurrent_limit,
    {
        let j = Jobs { running: 0, delay_queue: Vec::new(), concurrent_limit };
        assert(j.waiting() =~= Seq::<J>::empty());
        j
    }

    /// Pushes a job; returns the jobs to start now: the waiting ones first, in order,
    /// as many as the limit leaves room for.
    pub fn push(&mut self, job: J) -> (admitted: Vec<J>)
        ensures
            ({
                let q = old(self).waiting().push(job);
                let room = (old(self).limit() - old(self).running_count()) as int;
                let n = if room < q.len() { room } else { q.len() as int };
                &&& admitted@ == q.take(n)
                &&& final(self).waiting() == q.skip(n)
                &&& final(self).running_count() == old(self).running_count() + n
                &&& final(self).limit() == old(self).limit()
            }),
            final(self).running_count() <= final(self).limit(),
    {
        proof {
            use_type_invariant(&*self);
        }
        let mut queue: Vec<J> = Vec::new();
        std::mem::swap(&mut queue, &mut self.delay_queue);
        queue.push(job);
        let (admitted, rest, running) = take_admitted(queue, self.running, self.concurrent_limit);
        self.delay_queue = rest;
        self.running = running;
        admitted
    }

    /// A running job finished; returns the waiting jobs to start now, in order.
    pub fn complete(&mut self) -> (admitted: Vec<J>)
        requires
            old(self).running_count() > 0,
        ensures
            ({
                let q = old(self).waiting();
                let room = (old(self).limit() - (old(self).running_count() - 1)) as int;
                let n = if room < q.len() { room } else { q.len() as int };
                &&& admitted@ == q.take(n)
                &&& final(self).waiting() == q.skip(n)
                &&& final(self).running_count() == old(self).running_count() - 1 + n
                &&& final(self).limit() == old(self).limit()
            }),
            final(self).running_count() <= final(self).limit(),
    {
        proof {
            use_type_invariant(&*self);
        }
        let mut queue: Vec<J> = Vec::new();
        std::mem::swap(&mut queue, &mut self.delay_queue);
        let (admitted, rest, running) = take_admitted(queue, self.running - 1, self.concurrent_limit);
        self.delay_queue = rest;
        self.running = running;
        admitted
    }

    /// Whether no job runs or waits.
    pub fn is_empty(&self) -> (r: bool)
        ensures
            r == (self.running_count() == 0 && self.waiting().len() == 0),
    {
        self.running == 0 && self.delay_queue.len() == 0
    }

    /// Drops every job, running or waiting.
    pub fn clear(&mut self)
        ensures
            final(self).running_count() == 0,
            final(self).waiting() == Seq::<J>::empty(),
            final(self).limit() == old(self).limit(),
    {
        proof {
            use_type_invariant(&*self);
        }
        let mut queue: Vec<J> = Vec::new();
        std::mem::swap(&mut queue, &mut self.delay_queue);
        self.running = 0;
        assert(self.waiting() =~= Seq::<J>::empty());
    }
}

/// Admits jobs from the front of `queue` while fewer than `limit` run.
fn take_admitted<J>(queue: Vec<J>, running: usize, limit: usize) -> (r: (Vec<J>, Vec<J>, usize))
    requires
        running <= limit,
    ensures
        ({
            let room = (limit - running) as int;
            let n = if room < queue@.len() { room } else { queue@.len() as int };
            &&& r.0@ == queue@.take(n)
            &&& r.1@ == queue@.skip(n)
            &&& r.2 == running + n
        }),
{
    let ghost q = queue@;
    let ghost start = running;
    let mut admitted: Vec<J> = Vec::new();
    let mut running = running;
    let mut queue = queue;
    assert(q.take(0) =~= Seq::<J>::empty());
    assert(q.skip(0) =~= q);
    while running < limit && queue.len() > 0
        invariant
            start <= running <= limit,
            running - start <= q.len(),
            admitted@ == q.take(running - start),
            queue@ == q.skip(running - start),
        decreases queue@.len(),
    {
        let job = queue.remove(0);
        admitted.push(job);
        proof {
            assert(admitted@ =~= q.take(running + 1 - start));
            assert(queue@ =~= q.skip(running + 1 - start));
        }
        running += 1;
    }
    (admitted, queue, running)
}

} // verus!
