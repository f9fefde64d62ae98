use crate::config::Config;
use crate::engine::{EngineFailure, Worker};
use crate::error::{error_view, ErrorKind, MediaSoupError};
use crate::room::{engine_error, failure_error};
use vstd::arithmetic::div_mod::{lemma_fundamental_div_mod, lemma_fundamental_div_mod_converse};
use vstd::prelude::*;

verus! {

/// The place in the pool of the worker that the acquisition numbered `counter` gets.
pub open spec fn round_robin_index(counter: nat, workers: nat) -> nat
    recommends
        workers > 0,
{
    counter % workers
}

/// The count after `counter`: one more, and zero after the largest count.
pub open spec fn next_counter(counter: nat) -> nat {
    if counter >= usize::MAX {
        0
    } else {
        counter + 1
    }
}

/// How many of the acquisitions numbered `start` to `start + calls - 1` get the worker at
/// the place `worker` of a pool of `workers` workers.
pub open spec fn served(start: nat, calls: nat, workers: nat, worker: nat) -> nat
    decreases calls,
{
    if calls == 0 {
        0
    } else {
        served(start, (calls - 1) as nat, workers, worker) + if round_robin_index(
            (start + calls - 1) as nat,
            workers,
        ) == worker {
            1nat
        } else {
            0nat
        }
    }
}

/// The pool of the workers of the media engine. Rooms are given workers in turn.
#[derive(Debug, PartialEq)]
pub struct CustomWorkerManager {
    workers: Vec<Worker>,
    current_worker: usize,
    wanted: usize,
}

/// A pool as mathematical data: its workers in order, the number of acquisitions so far
/// and the number of workers that it is to have.
pub struct PoolView {
    pub workers: Seq<Worker>,
    pub counter: nat,
    pub wanted: nat,
}

impl PoolView {
    /// The pool after one acquisition.
    pub open spec fn advanced(self) -> PoolView {
        PoolView { counter: next_counter(self.counter), ..self }
    }

    /// The pool after `calls` acquisitions.
    pub open spec fn after(self, calls: nat) -> PoolView
        decreases calls,
    {
        if calls == 0 {
            self
        } else {
            self.after((calls - 1) as nat).advanced()
        }
    }

    /// The place in the pool of the worker that the next acquisition gets.
    pub open spec fn turn(self) -> nat {
        round_robin_index(self.counter, self.workers.len())
    }

    /// How many of the next `calls` acquisitions get the worker at the place `worker`.
    pub open spec fn turns(self, calls: nat, worker: nat) -> nat
        decreases calls,
    {
        if calls == 0 {
            0
        } else {
            self.turns((calls - 1) as nat, worker) + if self.after((calls - 1) as nat).turn()
                == worker {
                1nat
            } else {
                0nat
            }
        }
    }
}

impl View for CustomWorkerManager {
    type V = PoolView;

    closed spec fn view(&self) -> PoolView {
        PoolView {
            workers: self.workers@,
            counter: self.current_worker as nat,
            wanted: self.wanted as nat,
        }
    }
}

impl CustomWorkerManager {
    /// An empty pool that is to have as many workers as `config` asks for.
    pub fn new(config: &Config) -> (r: CustomWorkerManager)
        ensures
            r@ == (PoolView {
                workers: Seq::empty(),
                counter: 0,
                wanted: config.worker.num_workers as nat,
            }),
    {
        CustomWorkerManager {
            workers: Vec::new(),
            current_worker: 0,
            wanted: config.worker.num_workers,
        }
    }

    /// True while workers are missing.
    pub fn wants_worker(&self) -> (r: bool)
        ensures
            r == (self@.workers.len() < self@.wanted),
    {
        self.workers.len() < self.wanted
    }

    /// Takes the engine's answer to the start of a worker. A worker that has started
    /// joins the pool as its last; a failure is an error, and the pool stays as it is.
    pub fn worker_started(&mut self, outcome: Result<Worker, EngineFailure>) -> (r: Result<
        (),
        MediaSoupError,
    >)
        ensures
            match outcome {
                Ok(w) => r is Ok && final(self)@ == (PoolView {
                    workers: old(self)@.workers.push(w),
                    ..old(self)@
                }),
                Err(f) => r is Err && r->Err_0@ == failure_error(ErrorKind::Io, f)
                    && final(self)@ == old(self)@,
            },
    {
        match outcome {
            Ok(w) => {
                self.workers.push(w);
                Ok(())
            },
            Err(f) => Err(engine_error(ErrorKind::Io, f)),
        }
    }

    /// The next worker in turn: the one at the place that the count of acquisitions so
    /// far leaves when it is divided by the number of workers. The count goes up by one.
    /// A pool without workers gives an error and stays as it is.
    pub fn get_worker(&mut self) -> (r: Result<Worker, MediaSoupError>)
        ensures
            match r {
                Ok(w) => old(self)@.workers.len() > 0 && w == old(self)@.workers[old(self)@.turn() as int]
                    && final(self)@ == old(self)@.advanced(),
                Err(e) => old(self)@.workers.len() == 0 && e@ == error_view(
                    ErrorKind::Config,
                    "No workers available"@,
                ) && final(self)@ == old(self)@,
            },
    {
        if self.workers.len() == 0 {
            return Err(MediaSoupError::Config("No workers available".to_owned()));
        }
        let index = self.current_worker % self.workers.len();
        self.current_worker = self.current_worker.wrapping_add(1);
        Ok(self.workers[index])
    }
}

/// The number of the multiples of `workers`, shifted by `worker`, that lie below `x`.
spec fn below(x: nat, workers: nat, worker: nat) -> int {
    (x + workers - 1 - worker) / (workers as int)
}

/// One more number is one more acquisition for `worker` exactly when the number leaves
/// `worker` on division.
proof fn lemma_below_step(x: nat, workers: nat, worker: nat)
    requires
        workers > 0,
        worker < workers,
    ensures
        below(x + 1, workers, worker) - below(x, workers, worker) == if x % workers == worker {
            1int
        } else {
            0int
        },
{
    let w = workers as int;
    let y = x + workers - 1 - worker;
    let q = y / w;
    let r = y % w;
    lemma_fundamental_div_mod(y, w);
    lemma_fundamental_div_mod(x as int, w);
    assert(w * q == q * w) by (nonlinear_arith);
    if r == w - 1 {
        assert(y + 1 == (q + 1) * w + 0) by (nonlinear_arith)
            requires
                y == w * q + r,
                r == w - 1,
        ;
        lemma_fundamental_div_mod_converse(y + 1, w, q + 1, 0);
        // x = y - w + 1 + worker = q * w + worker
        assert(x == q * w + worker);
        lemma_fundamental_div_mod_converse(x as int, w, q, worker as int);
    } else {
        assert(y + 1 == q * w + (r + 1));
        lemma_fundamental_div_mod_converse(y + 1, w, q, r + 1);
        if x % workers == worker {
            let qx = (x as int) / w;
            assert(x == w * qx + worker);
            assert(y == (qx) * w + (w - 1)) by (nonlinear_arith)
                requires
                    y == x + w - 1 - worker,
                    x == w * qx + worker,
            ;
            lemma_fundamental_div_mod_converse(y, w, qx, w - 1);
        }
    }
}

/// The acquisitions for `worker` are the shifted multiples between the two ends.
proof fn lemma_served_closed_form(start: nat, calls: nat, workers: nat, worker: nat)
    requires
        workers > 0,
        worker < workers,
    ensures
        served(start, calls, workers, worker) == below(start + calls, workers, worker) - below(
            start,
            workers,
            worker,
        ),
    decreases calls,
{
    if calls > 0 {
        lemma_served_closed_form(start, (calls - 1) as nat, workers, worker);
        lemma_below_step((start + calls - 1) as nat, workers, worker);
    }
}

/// Going `n` further raises the quotient by the quotient of `n`, or by one more; by
/// exactly the quotient where `n` is a multiple.
proof fn lemma_quotient_growth(y: int, n: int, w: int)
    requires
        y >= 0,
        n >= 0,
        w > 0,
    ensures
        (y + n) / w - y / w == n / w || (n % w != 0 && (y + n) / w - y / w == n / w + 1),
{
    let q1 = y / w;
    let r1 = y % w;
    let q2 = n / w;
    let r2 = n % w;
    lemma_fundamental_div_mod(y, w);
    lemma_fundamental_div_mod(n, w);
    if r1 + r2 < w {
        assert(y + n == (q1 + q2) * w + (r1 + r2)) by (nonlinear_arith)
            requires
                y == w * q1 + r1,
                n == w * q2 + r2,
        ;
        lemma_fundamental_div_mod_converse(y + n, w, q1 + q2, r1 + r2);
    } else {
        assert(y + n == (q1 + q2 + 1) * w + (r1 + r2 - w)) by (nonlinear_arith)
            requires
                y == w * q1 + r1,
                n == w * q2 + r2,
        ;
        lemma_fundamental_div_mod_converse(y + n, w, q1 + q2 + 1, r1 + r2 - w);
    }
}

/// As long as the count does not pass the largest count, the acquisitions of a pool are
/// the acquisitions numbered from its count on.
proof fn lemma_turns_are_served(pool: PoolView, calls: nat, worker: nat)
    requires
        pool.counter + calls <= usize::MAX,
    ensures
        pool.after(calls).counter == pool.counter + calls,
        pool.after(calls).workers == pool.workers,
        pool.turns(calls, worker) == served(pool.counter, calls, pool.workers.len(), worker),
    decreases calls,
{
    if calls > 0 {
        lemma_turns_are_served(pool, (calls - 1) as nat, worker);
    }
}

/// Round-robin is fair: of any `calls` acquisitions in a row from a pool of `workers`
/// workers, each worker gets the quotient of `calls` by `workers`, or one more where the
/// division leaves a rest.
pub proof fn law_round_robin_fair(start: nat, calls: nat, workers: nat, worker: nat)
    requires
        workers > 0,
        worker < workers,
    ensures
        served(start, calls, workers, worker) == calls / workers || (calls % workers != 0
            && served(start, calls, workers, worker) == calls / workers + 1),
{
    lemma_served_closed_form(start, calls, workers, worker);
    lemma_quotient_growth(start + workers - 1 - worker, calls as int, workers as int);
}

/// The same of a pool: of its next `calls` acquisitions each of its workers gets the
/// quotient of `calls` by the number of workers, or one more where the division leaves a
/// rest. The count of acquisitions is taken not to pass the largest count within the
/// calls.
pub proof fn law_pool_is_fair(pool: PoolView, calls: nat, worker: nat)
    requires
        worker < pool.workers.len(),
        pool.counter + calls <= usize::MAX,
    ensures
        pool.turns(calls, worker) == calls / pool.workers.len() || (calls
            % pool.workers.len() != 0 && pool.turns(calls, worker) == calls
            / pool.workers.len() + 1),
{
    lemma_turns_are_served(pool, calls, worker);
    law_round_robin_fair(pool.counter, calls, pool.workers.len(), worker);
}

} // verus!
