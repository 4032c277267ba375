//! The server's configuration and the dispatch rules of its worker pool.

use crate::text::to_chars;
use std::collections::VecDeque;
use vstd::prelude::*;
use vstd::set_lib::*;

verus! {

/// The settings that the server starts with. They do not change afterwards.
#[derive(Clone, Debug, PartialEq, Eq)]
pub struct Config {
    /// The address to listen on.
    pub address: String,
    /// The root directory below which files are served.
    pub base_dir: String,
    /// The file served when the root itself is requested.
    pub index_file: String,
    /// The number of workers, at least 1.
    pub thread_count: usize,
}

/// Whether `c` is one of the ASCII digits `0` to `9`.
pub open spec fn is_digit(c: char) -> bool {
    0x30 <= c as u32 <= 0x39
}

/// The value of a digit; 0 for any other character.
pub open spec fn digit_value(c: char) -> nat {
    if is_digit(c) {
        (c as u32 - 0x30) as nat
    } else {
        0
    }
}

/// The number that a string of digits denotes in base ten.
pub open spec fn digits_value(s: Seq<char>) -> nat
    decreases s.len(),
{
    if s.len() == 0 {
        0
    } else {
        digits_value(s.drop_last()) * 10 + digit_value(s.last())
    }
}

/// `s` without the `+` that may stand at its start.
pub open spec fn unsigned_part(s: Seq<char>) -> Seq<char> {
    if s.len() > 0 && s[0] == '+' {
        s.skip(1)
    } else {
        s
    }
}

/// Whether every character of `s` is a digit.
pub open spec fn all_digits(s: Seq<char>) -> bool {
    forall|i: int| 0 <= i < s.len() ==> is_digit(#[trigger] s[i])
}

/// The number that `s` denotes as a worker count: an optional `+`, then one
/// or more digits and nothing else, with a value that fits in `usize`.
pub open spec fn parsed_count(s: Seq<char>) -> Option<nat> {
    let body = unsigned_part(s);
    if body.len() > 0 && all_digits(body) && digits_value(body) <= usize::MAX {
        Some(digits_value(body))
    } else {
        None
    }
}

/// The worker count for a setting: 2 when the setting is absent or is not
/// a number, otherwise its value, raised to 1 when it is 0.
pub open spec fn worker_count(setting: Option<Seq<char>>) -> nat {
    match setting {
        None => 2,
        Some(s) => match parsed_count(s) {
            None => 2,
            Some(n) => if n < 1 {
                1
            } else {
                n
            },
        },
    }
}

/// The view of an optional string slice.
pub open spec fn setting_text(o: Option<&str>) -> Option<Seq<char>> {
    match o {
        Some(s) => Some(s@),
        None => None,
    }
}

/// The value of a prefix never exceeds the value of the whole.
proof fn lemma_digits_value_prefix(s: Seq<char>, k: int)
    requires
        0 <= k <= s.len(),
    ensures
        digits_value(s.take(k)) <= digits_value(s),
    decreases s.len(),
{
    if k == s.len() {
        assert(s.take(k) == s);
    } else {
        assert(s.drop_last().take(k) == s.take(k));
        lemma_digits_value_prefix(s.drop_last(), k);
    }
}

/// Reads a worker count as [`parsed_count`] describes.
pub fn parse_count(text: &str) -> (r: Option<usize>)
    ensures
        match parsed_count(text@) {
            Some(n) => r == Some(n as usize),
            None => r is None,
        },
{
    let chars = to_chars(text);
    let n = chars.len();
    let start: usize = if n > 0 && chars[0] == '+' {
        1
    } else {
        0
    };
    if start == n {
        return None;
    }
    let ghost body = unsigned_part(text@);
    let mut value: usize = 0;
    let mut i: usize = start;
    while i < n
        invariant
            start <= i <= n,
            n == chars@.len(),
            body == chars@.skip(start as int),
            body == unsigned_part(text@),
            forall|k: int| 0 <= k < i - start ==> is_digit(#[trigger] body[k]),
            value == digits_value(body.take(i - start)),
        decreases n - i,
    {
        let c = chars[i];
        let u: u32 = c as u32;
        if u < 0x30 || u > 0x39 {
            assert(!is_digit(body[i - start]));
            return None;
        }
        let digit: usize = (u - 0x30) as usize;
        proof {
            assert(body.take(i - start + 1).drop_last() == body.take(i - start));
            lemma_digits_value_prefix(body, i - start + 1);
        }
        let scaled = match value.checked_mul(10) {
            Some(x) => x,
            None => {
                return None;
            },
        };
        value = match scaled.checked_add(digit) {
            Some(x) => x,
            None => {
                return None;
            },
        };
        i += 1;
    }
    assert(body.take(n - start) == body);
    Some(value)
}

impl Config {
    /// Whether the configuration is usable: it asks for at least one worker.
    pub open spec fn wf(&self) -> bool {
        self.thread_count >= 1
    }

    /// Builds the configuration from the four settings, each absent or
    /// present: the variables `THREADS`, `ADDR`, `DIR` and `INDEX` of the
    /// process. An absent setting takes its default: 2 workers,
    /// `127.0.0.1:8080`, `./www` and `index.html`.
    pub fn new(
        threads: Option<&str>,
        address: Option<&str>,
        base_dir: Option<&str>,
        index_file: Option<&str>,
    ) -> (r: Config)
        ensures
            r.wf(),
            r.thread_count == worker_count(setting_text(threads)),
            r.address@ == match address {
                Some(a) => a@,
                None => "127.0.0.1:8080"@,
            },
            r.base_dir@ == match base_dir {
                Some(d) => d@,
                None => "./www"@,
            },
            r.index_file@ == match index_file {
                Some(f) => f@,
                None => "index.html"@,
            },
    {
        let thread_count = match threads {
            None => 2,
            Some(text) => match parse_count(text) {
                None => 2,
                Some(n) => if n < 1 {
                    1
                } else {
                    n
                },
            },
        };
        Config {
            address: address.unwrap_or("127.0.0.1:8080").to_owned(),
            base_dir: base_dir.unwrap_or("./www").to_owned(),
            index_file: index_file.unwrap_or("index.html").to_owned(),
            thread_count,
        }
    }
}

/// Where a job stands on its way through the pool. A job only moves
/// forward: from pending to running on one worker, from there to done.
pub enum JobStatus {
    /// Accepted and waiting in the queue.
    Pending,
    /// Handed to the worker with this number, which has not come back yet.
    Running { worker: nat },
    /// The worker that ran it has come back.
    Done,
}

/// What a worker is doing, as the pool sees it.
pub enum WorkerView {
    /// Waiting for work.
    Idle,
    /// Running the job with this number.
    Busy { job: nat },
    /// Its loop has ended; it takes no more work.
    Stopped,
}

/// What a worker is told when it asks for work.
#[derive(Debug, PartialEq, Eq)]
pub enum Dispatch<J> {
    /// Run this job, then ask again.
    Run(J),
    /// The queue is empty but open: wait until something changes, then ask again.
    Wait,
    /// The queue is closed and drained: end the loop.
    Exit,
}

/// Something that happens to a pool.
pub enum PoolEvent<J> {
    /// A job is submitted.
    Submit(J),
    /// The worker with this number asks for work.
    Request(nat),
    /// The queue is closed.
    Close,
}

/// The mathematical model of a pool: every job it ever accepted, in the
/// order of submission, with its status; its workers; and whether the
/// queue still accepts jobs. Jobs and workers are numbered from 0.
pub struct PoolView<J> {
    pub jobs: Seq<J>,
    pub status: Seq<JobStatus>,
    pub started: nat,
    pub workers: Seq<WorkerView>,
    pub open: bool,
}

impl<J> PoolView<J> {
    /// A fresh pool of `size` idle workers with an empty, open queue.
    pub open spec fn initial(size: nat) -> PoolView<J> {
        PoolView {
            jobs: Seq::empty(),
            status: Seq::empty(),
            started: 0,
            workers: Seq::new(size, |i: int| WorkerView::Idle),
            open: true,
        }
    }

    /// The invariant of a pool.
    ///
    /// Jobs are started in the order of submission: exactly the first
    /// `started` jobs are no longer pending. A job runs on a worker exactly
    /// when that worker is busy with that job, so no job is on two workers
    /// and no worker has two jobs. A worker stops only once the queue is
    /// closed and every job has been started.
    pub open spec fn wf(self) -> bool {
        &&& self.workers.len() > 0
        &&& self.status.len() == self.jobs.len()
        &&& self.started <= self.jobs.len()
        &&& forall|k: int|
            0 <= k < self.status.len() ==> ((#[trigger] self.status[k] is Pending) <==> k
                >= self.started)
        &&& forall|k: int|
            0 <= k < self.status.len() ==> (#[trigger] self.status[k] matches JobStatus::Running {
                worker,
            } ==> worker < self.workers.len() && self.workers[worker as int]
                == WorkerView::Busy { job: k as nat })
        &&& forall|w: int|
            0 <= w < self.workers.len() ==> (#[trigger] self.workers[w] matches WorkerView::Busy {
                job,
            } ==> job < self.status.len() && self.status[job as int] == JobStatus::Running {
                worker: w as nat,
            })
        &&& forall|w: int|
            0 <= w < self.workers.len() && #[trigger] self.workers[w] is Stopped ==> !self.open
                && self.started == self.jobs.len()
    }

    /// The number of jobs that wait in the queue.
    pub open spec fn pending(self) -> nat {
        (self.jobs.len() - self.started) as nat
    }

    /// Whether every worker has stopped, so that joining them all returns.
    pub open spec fn terminated(self) -> bool {
        forall|w: int| 0 <= w < self.workers.len() ==> #[trigger] self.workers[w] is Stopped
    }

    /// Submitting a job: it joins the end of the queue if the queue is
    /// open, and is dropped if it is closed.
    pub open spec fn submit(self, job: J) -> PoolView<J> {
        if self.open {
            PoolView {
                jobs: self.jobs.push(job),
                status: self.status.push(JobStatus::Pending),
                ..self
            }
        } else {
            self
        }
    }

    /// Closing the queue. Jobs already accepted stay in it.
    pub open spec fn close(self) -> PoolView<J> {
        PoolView { open: false, ..self }
    }

    /// The pool once worker `w` has come back from the job it was busy with,
    /// if any.
    pub open spec fn returned(self, w: nat) -> PoolView<J> {
        if w < self.workers.len() {
            match self.workers[w as int] {
                WorkerView::Busy { job } => PoolView {
                    status: self.status.update(job as int, JobStatus::Done),
                    workers: self.workers.update(w as int, WorkerView::Idle),
                    ..self
                },
                _ => self,
            }
        } else {
            self
        }
    }

    /// Worker `w` asks for work. If it was busy, its job is done. It then
    /// gets the oldest pending job; or waits, if there is none and the
    /// queue is open; or stops, if there is none and the queue is closed.
    /// A stopped worker, or a number that names no worker, is told to exit
    /// and changes nothing.
    pub open spec fn request(self, w: nat) -> (PoolView<J>, Dispatch<J>) {
        let s = self.returned(w);
        if w >= s.workers.len() || s.workers[w as int] is Stopped {
            (s, Dispatch::Exit)
        } else if s.started < s.jobs.len() {
            (
                PoolView {
                    status: s.status.update(s.started as int, JobStatus::Running { worker: w }),
                    workers: s.workers.update(w as int, WorkerView::Busy { job: s.started }),
                    started: s.started + 1,
                    ..s
                },
                Dispatch::Run(s.jobs[s.started as int]),
            )
        } else if s.open {
            (s, Dispatch::Wait)
        } else {
            (
                PoolView { workers: s.workers.update(w as int, WorkerView::Stopped), ..s },
                Dispatch::Exit,
            )
        }
    }

    /// The numbers of the jobs that are running.
    pub open spec fn running(self) -> Set<int> {
        Set::new(|k: int| 0 <= k < self.status.len() && self.status[k] is Running)
    }

    /// The numbers of the workers that are busy.
    pub open spec fn busy(self) -> Set<int> {
        Set::new(|w: int| 0 <= w < self.workers.len() && self.workers[w] is Busy)
    }

    /// What is left to do before every worker has stopped: two requests for
    /// each pending job (one to take it, one to come back from it), one for
    /// each running job, and one for each worker to stop.
    pub open spec fn work_left(self) -> nat {
        2 * self.pending() + busy_count(self.workers) + live_count(self.workers)
    }

    /// The pool after one event.
    pub open spec fn after(self, event: PoolEvent<J>) -> PoolView<J> {
        match event {
            PoolEvent::Submit(job) => self.submit(job),
            PoolEvent::Request(w) => self.request(w).0,
            PoolEvent::Close => self.close(),
        }
    }

    /// The pool after a sequence of events, in order.
    pub open spec fn after_all(self, events: Seq<PoolEvent<J>>) -> PoolView<J>
        decreases events.len(),
    {
        if events.len() == 0 {
            self
        } else {
            self.after_all(events.drop_last()).after(events.last())
        }
    }
}

/// A fresh pool satisfies the invariant.
pub proof fn lemma_initial_wf<J>(size: nat)
    requires
        size > 0,
    ensures
        PoolView::<J>::initial(size).wf(),
{
}

/// Every event preserves the invariant.
pub proof fn lemma_event_preserves_wf<J>(s: PoolView<J>, event: PoolEvent<J>)
    requires
        s.wf(),
    ensures
        s.after(event).wf(),
{
    match event {
        PoolEvent::Submit(job) => {},
        PoolEvent::Close => {},
        PoolEvent::Request(w) => {
            lemma_returned_wf(s, w);
        },
    }
}

/// A worker coming back from its job preserves the invariant and leaves
/// the worker idle unless it had stopped.
proof fn lemma_returned_wf<J>(s: PoolView<J>, w: nat)
    requires
        s.wf(),
    ensures
        s.returned(w).wf(),
        w < s.workers.len() ==> !(s.returned(w).workers[w as int] is Busy),
{
}

/// Every state that a fresh pool can reach satisfies the invariant.
pub proof fn law_reachable_pool_is_wf<J>(size: nat, events: Seq<PoolEvent<J>>)
    requires
        size > 0,
    ensures
        PoolView::<J>::initial(size).after_all(events).wf(),
    decreases events.len(),
{
    if events.len() == 0 {
        lemma_initial_wf::<J>(size);
    } else {
        law_reachable_pool_is_wf::<J>(size, events.drop_last());
        lemma_event_preserves_wf(
            PoolView::<J>::initial(size).after_all(events.drop_last()),
            events.last(),
        );
    }
}

/// A job is run at most once. Whatever happens to the pool, an accepted job
/// stays the same job in the same place, and its status only moves forward:
/// a job that is done stays done, and a job that is running stays on its
/// worker until it is done. So a job is handed out only while it is
/// pending, which it never is again.
pub proof fn law_job_runs_at_most_once<J>(s: PoolView<J>, event: PoolEvent<J>, k: int)
    requires
        s.wf(),
        0 <= k < s.jobs.len(),
    ensures
        k < s.after(event).jobs.len(),
        s.after(event).jobs[k] == s.jobs[k],
        s.status[k] is Done ==> s.after(event).status[k] is Done,
        s.status[k] is Running ==> s.after(event).status[k] == s.status[k] || s.after(
            event,
        ).status[k] is Done,
{
    match event {
        PoolEvent::Request(w) => {
            lemma_returned_wf(s, w);
        },
        _ => {},
    }
}

/// Jobs are handed out in the order of submission: while a job is pending
/// and worker `w` has not stopped, its request is answered with the oldest
/// pending job, which from then on runs on `w`.
pub proof fn law_oldest_pending_job_is_next<J>(s: PoolView<J>, w: nat)
    requires
        s.wf(),
        s.pending() > 0,
        w < s.workers.len(),
    ensures
        s.request(w).1 == Dispatch::Run(s.jobs[s.started as int]),
        s.request(w).0.status[s.started as int] == (JobStatus::Running { worker: w }),
        s.request(w).0.pending() == s.pending() - 1,
{
    lemma_returned_wf(s, w);
}

/// At no time do more jobs run than there are workers, and no two workers
/// run the same job.
pub proof fn law_running_jobs_bounded_by_workers<J>(s: PoolView<J>)
    requires
        s.wf(),
    ensures
        s.running().finite(),
        s.running().len() <= s.workers.len(),
        forall|a: int, b: int|
            0 <= a < s.workers.len() && 0 <= b < s.workers.len() && s.workers[a] is Busy
                && s.workers[a] == s.workers[b] ==> a == b,
{
    let all = set_int_range(0, s.workers.len() as int);
    lemma_int_range(0, s.workers.len() as int);
    lemma_len_subset(s.busy(), all);
    let job_of = |w: int| s.workers[w]->job as int;
    assert(s.busy().map(job_of) =~= s.running()) by {
        assert forall|k: int| s.running().contains(k) implies s.busy().map(job_of).contains(
            k,
        ) by {
            let w = s.status[k]->worker as int;
            assert(s.busy().contains(w) && job_of(w) == k);
        }
    }
    lemma_map_size_bound(s.busy(), s.running(), job_of);
}

/// Once every worker has stopped, every job that was ever accepted is done:
/// joining the workers does not return while a job is pending or running.
pub proof fn law_terminated_pool_has_run_every_job<J>(s: PoolView<J>)
    requires
        s.wf(),
        s.terminated(),
    ensures
        !s.open,
        s.pending() == 0,
        forall|k: int| 0 <= k < s.jobs.len() ==> #[trigger] s.status[k] is Done,
{
    assert(s.workers[0] is Stopped);
}

/// A closed queue accepts nothing: whatever is submitted after the queue
/// was closed never becomes a job of the pool, so it is never run; and the
/// queue stays closed.
pub proof fn law_closed_pool_accepts_no_job<J>(s: PoolView<J>, events: Seq<PoolEvent<J>>)
    requires
        !s.open,
    ensures
        !s.after_all(events).open,
        s.after_all(events).jobs == s.jobs,
    decreases events.len(),
{
    if events.len() > 0 {
        law_closed_pool_accepts_no_job(s, events.drop_last());
    }
}

/// While the queue is open, a submitted job is accepted: it becomes the
/// last job of the pool and is pending.
pub proof fn law_open_pool_accepts_job<J>(s: PoolView<J>, job: J)
    requires
        s.wf(),
        s.open,
    ensures
        s.submit(job).jobs == s.jobs.push(job),
        s.submit(job).status.last() is Pending,
        s.submit(job).pending() == s.pending() + 1,
{
}

/// The number of workers among `workers` that are busy.
pub open spec fn busy_count(workers: Seq<WorkerView>) -> nat
    decreases workers.len(),
{
    if workers.len() == 0 {
        0
    } else {
        busy_count(workers.drop_last()) + if workers.last() is Busy {
            1nat
        } else {
            0nat
        }
    }
}

/// The number of workers among `workers` that have not stopped.
pub open spec fn live_count(workers: Seq<WorkerView>) -> nat
    decreases workers.len(),
{
    if workers.len() == 0 {
        0
    } else {
        live_count(workers.drop_last()) + if workers.last() is Stopped {
            0nat
        } else {
            1nat
        }
    }
}

/// How the two counts change when one worker changes.
proof fn lemma_counts_update(workers: Seq<WorkerView>, w: int, v: WorkerView)
    requires
        0 <= w < workers.len(),
    ensures
        busy_count(workers.update(w, v)) + (if workers[w] is Busy {
            1nat
        } else {
            0nat
        }) == busy_count(workers) + (if v is Busy {
            1nat
        } else {
            0nat
        }),
        live_count(workers.update(w, v)) + (if workers[w] is Stopped {
            0nat
        } else {
            1nat
        }) == live_count(workers) + (if v is Stopped {
            0nat
        } else {
            1nat
        }),
    decreases workers.len(),
{
    if w == workers.len() - 1 {
        assert(workers.update(w, v).drop_last() == workers.drop_last());
    } else {
        assert(workers.update(w, v).drop_last() == workers.drop_last().update(w, v));
        lemma_counts_update(workers.drop_last(), w, v);
    }
}

/// When no worker is live, every worker has stopped.
proof fn lemma_no_live_worker(workers: Seq<WorkerView>)
    requires
        live_count(workers) == 0,
    ensures
        forall|w: int| 0 <= w < workers.len() ==> #[trigger] workers[w] is Stopped,
    decreases workers.len(),
{
    if workers.len() > 0 {
        lemma_no_live_worker(workers.drop_last());
        assert forall|w: int| 0 <= w < workers.len() implies #[trigger] workers[w] is Stopped by {
            if w < workers.len() - 1 {
                assert(workers.drop_last()[w] == workers[w]);
            }
        }
    }
}

/// Every accepted job is run in the end. Once the queue is closed, each
/// request of a worker that has not stopped brings the pool strictly closer
/// to the end: [`PoolView::work_left`] decreases. It cannot decrease for
/// ever, so after finitely many requests no work is left, and then every
/// worker has stopped and every job is done. While the queue is open the
/// same holds of every request that is not told to wait.
pub proof fn law_requests_make_progress<J>(s: PoolView<J>, w: nat)
    requires
        s.wf(),
        w < s.workers.len(),
        !(s.workers[w as int] is Stopped),
    ensures
        !(s.request(w).1 is Wait) ==> s.request(w).0.work_left() < s.work_left(),
        s.request(w).1 is Wait ==> s.open && s.request(w).0.work_left() <= s.work_left(),
        !s.open ==> !(s.request(w).1 is Wait),
{
    lemma_returned_wf(s, w);
    let r = s.returned(w);
    if s.workers[w as int] is Busy {
        lemma_counts_update(s.workers, w as int, WorkerView::Idle);
    }
    if r.started < r.jobs.len() {
        lemma_counts_update(r.workers, w as int, WorkerView::Busy { job: r.started });
    } else if !r.open {
        lemma_counts_update(r.workers, w as int, WorkerView::Stopped);
    }
}

/// When no work is left, every worker has stopped and every job is done.
pub proof fn law_no_work_left_means_terminated<J>(s: PoolView<J>)
    requires
        s.wf(),
        s.work_left() == 0,
    ensures
        s.terminated(),
        forall|k: int| 0 <= k < s.jobs.len() ==> #[trigger] s.status[k] is Done,
{
    lemma_no_live_worker(s.workers);
    law_terminated_pool_has_run_every_job(s);
}

/// What a worker is doing.
#[derive(Clone, Copy, Debug, PartialEq, Eq, Structural)]
pub enum WorkerState {
    Idle,
    Busy,
    Stopped,
}

/// One worker of a pool: its number and what it is doing.
pub struct Worker {
    id: usize,
    state: WorkerState,
    job: Ghost<nat>,
}

impl View for Worker {
    type V = WorkerView;

    closed spec fn view(&self) -> WorkerView {
        match self.state {
            WorkerState::Idle => WorkerView::Idle,
            WorkerState::Busy => WorkerView::Busy { job: self.job@ },
            WorkerState::Stopped => WorkerView::Stopped,
        }
    }
}

impl Worker {
    /// The number of the worker, for use in contracts.
    pub closed spec fn number(&self) -> nat {
        self.id as nat
    }

    /// An idle worker with the number `id`.
    pub fn new(id: usize) -> (r: Worker)
        ensures
            r@ == WorkerView::Idle,
            r.number() == id,
    {
        Worker { id, state: WorkerState::Idle, job: Ghost(0) }
    }

    /// The number of the worker.
    pub fn id(&self) -> (r: usize)
        ensures
            r == self.number(),
    {
        self.id
    }

    /// What the worker is doing.
    pub fn state(&self) -> (r: WorkerState)
        ensures
            r == WorkerState::Idle <==> self@ is Idle,
            r == WorkerState::Busy <==> self@ is Busy,
            r == WorkerState::Stopped <==> self@ is Stopped,
    {
        self.state
    }
}

/// A fixed set of workers that share one queue of jobs.
///
/// The pool holds the queue and decides who runs what; it runs nothing
/// itself. Each worker is a loop around [`ThreadPool::request`], on a thread
/// that the caller provides.
pub struct ThreadPool<J> {
    workers: Vec<Worker>,
    queue: VecDeque<J>,
    open: bool,
    jobs: Ghost<Seq<J>>,
    status: Ghost<Seq<JobStatus>>,
}

impl<J> View for ThreadPool<J> {
    type V = PoolView<J>;

    closed spec fn view(&self) -> PoolView<J> {
        PoolView {
            jobs: self.jobs@,
            status: self.status@,
            started: (self.jobs@.len() - self.queue@.len()) as nat,
            workers: Seq::new(self.workers@.len(), |i: int| self.workers@[i]@),
            open: self.open,
        }
    }
}

impl<J> ThreadPool<J> {
    /// The invariant of the pool: its model satisfies [`PoolView::wf`], the
    /// queue holds exactly the pending jobs in the order of submission, and
    /// the workers are numbered by their position.
    pub closed spec fn wf(&self) -> bool {
        &&& self@.wf()
        &&& self.queue@.len() <= self.jobs@.len()
        &&& self.queue@ == self.jobs@.skip(self.jobs@.len() - self.queue@.len())
        &&& forall|i: int| 0 <= i < self.workers@.len() ==> (#[trigger] self.workers@[i]).id == i
    }

    /// The invariant of the pool gives the invariant of its model, so that
    /// every law about [`PoolView`] holds of the model of a pool at hand.
    pub proof fn lemma_wf_gives_model_wf(&self)
        requires
            self.wf(),
        ensures
            self@.wf(),
            self@.workers.len() > 0,
    {
    }

    /// Creates a pool of `size` idle workers with an empty, open queue.
    pub fn new(size: usize) -> (r: Self)
        requires
            size > 0,
        ensures
            r.wf(),
            r@ == PoolView::<J>::initial(size as nat),
    {
        let mut workers: Vec<Worker> = Vec::new();
        let mut id: usize = 0;
        while id < size
            invariant
                id <= size,
                workers@.len() == id,
                forall|i: int| 0 <= i < id ==> (#[trigger] workers@[i]).id == i,
                forall|i: int| 0 <= i < id ==> (#[trigger] workers@[i])@ == WorkerView::Idle,
            decreases size - id,
        {
            workers.push(Worker::new(id));
            id += 1;
        }
        let pool = ThreadPool {
            workers,
            queue: VecDeque::new(),
            open: true,
            jobs: Ghost(Seq::empty()),
            status: Ghost(Seq::empty()),
        };
        assert(pool@.workers =~= PoolView::<J>::initial(size as nat).workers);
        assert(pool.queue@ =~= pool.jobs@.skip(0));
        pool
    }

    /// Submits a job. It joins the end of the queue; if the queue has been
    /// closed it is dropped instead, and the result is `false`.
    pub fn execute(&mut self, job: J) -> (accepted: bool)
        requires
            old(self).wf(),
        ensures
            final(self).wf(),
            final(self)@ == old(self)@.submit(job),
            accepted == old(self)@.open,
    {
        if !self.open {
            return false;
        }
        proof {
            self.jobs@ = self.jobs@.push(job);
            self.status@ = self.status@.push(JobStatus::Pending);
        }
        self.queue.push_back(job);
        proof {
            assert(self.queue@ =~= self.jobs@.skip(self.jobs@.len() - self.queue@.len()));
        }
        true
    }

    /// Closes the queue: no job is accepted from now on. Jobs that wait in
    /// the queue are still handed out. Closing a closed queue changes nothing.
    pub fn shutdown(&mut self)
        requires
            old(self).wf(),
        ensures
            final(self).wf(),
            final(self)@ == old(self)@.close(),
    {
        self.open = false;
    }

    /// Answers worker `worker`, which asks for work, as
    /// [`PoolView::request`] prescribes. A worker that comes back from a job
    /// reports it done by asking again.
    pub fn request(&mut self, worker: usize) -> (d: Dispatch<J>)
        requires
            old(self).wf(),
        ensures
            final(self).wf(),
            (final(self)@, d) == old(self)@.request(worker as nat),
    {
        if worker >= self.workers.len() {
            return Dispatch::Exit;
        }
        match self.workers[worker].state {
            WorkerState::Stopped => {
                return Dispatch::Exit;
            },
            WorkerState::Busy => {
                proof {
                    let k = self.workers@[worker as int].job@;
                    self.status@ = self.status@.update(k as int, JobStatus::Done);
                }
                self.workers.set(
                    worker,
                    Worker { id: worker, state: WorkerState::Idle, job: Ghost(0) },
                );
            },
            WorkerState::Idle => {},
        }
        let ghost s = old(self)@.returned(worker as nat);
        proof {
            lemma_returned_wf(old(self)@, worker as nat);
            assert(self@.workers =~= s.workers);
        }
        match self.queue.pop_front() {
            Some(job) => {
                let ghost k = s.started;
                proof {
                    self.status@ = self.status@.update(
                        k as int,
                        JobStatus::Running { worker: worker as nat },
                    );
                }
                self.workers.set(
                    worker,
                    Worker { id: worker, state: WorkerState::Busy, job: Ghost(k) },
                );
                proof {
                    assert(self@.workers =~= s.request(worker as nat).0.workers);
                    assert(self.queue@ =~= self.jobs@.skip(self.jobs@.len() - self.queue@.len()));
                }
                Dispatch::Run(job)
            },
            None => {
                if self.open {
                    Dispatch::Wait
                } else {
                    self.workers.set(
                        worker,
                        Worker { id: worker, state: WorkerState::Stopped, job: Ghost(0) },
                    );
                    proof {
                        assert(self@.workers =~= s.request(worker as nat).0.workers);
                    }
                    Dispatch::Exit
                }
            },
        }
    }

    /// Whether every worker has stopped. Only then does joining the
    /// workers' threads return.
    pub fn is_terminated(&self) -> (r: bool)
        ensures
            r == self@.terminated(),
    {
        let mut i: usize = 0;
        while i < self.workers.len()
            invariant
                i <= self.workers@.len(),
                forall|w: int| 0 <= w < i ==> #[trigger] self@.workers[w] is Stopped,
            decreases self.workers@.len() - i,
        {
            match self.workers[i].state {
                WorkerState::Stopped => {},
                _ => {
                    return false;
                },
            }
            assert(self@.workers[i as int] is Stopped);
            i += 1;
        }
        true
    }

    /// What worker `worker` is doing; `None` if there is no such worker.
    pub fn worker_state(&self, worker: usize) -> (r: Option<WorkerState>)
        ensures
            worker >= self@.workers.len() ==> r is None,
            worker < self@.workers.len() ==> r == Some(
                match self@.workers[worker as int] {
                    WorkerView::Idle => WorkerState::Idle,
                    WorkerView::Busy { .. } => WorkerState::Busy,
                    WorkerView::Stopped => WorkerState::Stopped,
                },
            ),
    {
        if worker < self.workers.len() {
            Some(self.workers[worker].state)
        } else {
            None
        }
    }

    /// The number of workers.
    pub fn size(&self) -> (r: usize)
        ensures
            r == self@.workers.len(),
    {
        self.workers.len()
    }

    /// The number of jobs that wait in the queue.
    pub fn pending(&self) -> (r: usize)
        requires
            self.wf(),
        ensures
            r == self@.pending(),
    {
        self.queue.len()
    }

    /// Whether the queue still accepts jobs.
    pub fn is_open(&self) -> (r: bool)
        ensures
            r == self@.open,
    {
        self.open
    }
}

} // verus!
