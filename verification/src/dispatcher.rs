//! The task dispatcher: the settings of its servers, the finalize loop's
//! decisions, and how the manager reports the end of its threads.
use vstd::prelude::*;
use crate::text::{decimal_string, push_str, string_from};

verus! {

/// What one pass of the finalize loop decided.
pub struct FinalizeStep {
    /// Reports persisted so far.
    pub jobs_count: usize,
    /// Whether to wait a second before the next pass (nothing was persisted).
    pub sleep: bool,
    /// Whether the job limit is reached and the loop ends.
    pub stop: bool,
}

/// Specifies the binding and operation parameters for a thread that saves
/// finalized tasks to the task store.
pub struct Finalize {
    /// The task store address to bind on.
    pub backend_address: String,
    /// Maximum number of jobs before termination, if any.
    pub job_limit: Option<usize>,
}

/// The decision of one pass of the finalize loop.
pub open spec fn finalize_step(job_limit: Option<usize>, jobs_count: usize, did_work: bool) -> FinalizeStep {
    let n: usize = if did_work {
        (jobs_count + 1) as usize
    } else {
        jobs_count
    };
    FinalizeStep {
        jobs_count: n,
        sleep: !did_work,
        stop: match job_limit {
            Some(limit) => n >= limit,
            None => false,
        },
    }
}

impl Finalize {
    /// One pass of the finalize loop after trying to persist finished reports:
    /// a pass that persisted something counts one job, one that did not sleeps;
    /// the loop stops once the job count reaches the limit.
    pub fn step(&self, jobs_count: usize, did_work: bool) -> (r: FinalizeStep)
        requires
            did_work ==> jobs_count < usize::MAX,
        ensures
            r == finalize_step(self.job_limit, jobs_count, did_work),
    {
        let n = if did_work {
            jobs_count + 1
        } else {
            jobs_count
        };
        let stop = match self.job_limit {
            Some(limit) => n >= limit,
            None => false,
        };
        FinalizeStep { jobs_count: n, sleep: !did_work, stop }
    }

    /// The message printed when the job limit is reached.
    pub fn limit_message(limit: usize) -> (r: String)
        ensures
            r@ == "Manager job limit of "@ + crate::text::decimal(limit as int)
                + " reached, terminating IO thread..."@,
    {
        let mut m = string_from("Manager job limit of ");
        let d = decimal_string(limit as i128);
        push_str(&mut m, d.as_str());
        push_str(&mut m, " reached, terminating IO thread...");
        m
    }
}

/// Each pass counts one job exactly when it persisted something; with a job
/// limit, the finalize loop never counts past it and stops exactly when the
/// count reaches it; without one it never stops. Either way it sleeps
/// exactly after a pass that persisted nothing.
pub proof fn law_finalize_stops_at_limit(job_limit: Option<usize>, jobs_count: usize, did_work: bool)
    requires
        job_limit matches Some(limit) ==> jobs_count < limit,
        did_work ==> jobs_count < usize::MAX,
    ensures
        ({
            let s = finalize_step(job_limit, jobs_count, did_work);
            &&& (s.sleep <==> !did_work)
            &&& s.jobs_count == jobs_count + (if did_work {
                1int
            } else {
                0int
            })
            &&& match job_limit {
                Some(limit) => s.jobs_count <= limit && (s.stop <==> s.jobs_count == limit),
                None => !s.stop,
            }
        }),
{
}

/// The settings of a dispatcher server thread.
pub struct ServerConfig {
    pub port: usize,
    pub queue_size: usize,
    pub message_size: usize,
    pub backend_address: String,
}

/// Manager struct responsible for dispatching and receiving tasks.
pub struct TaskManager {
    /// Port for requesting/dispatching jobs.
    pub source_port: usize,
    /// Port for responding/receiving results.
    pub result_port: usize,
    /// The size of the dispatch queue (also the batch size for task store requests).
    pub queue_size: usize,
    /// Size of an individual message chunk.
    pub message_size: usize,
    /// Address of the task store.
    pub backend_address: String,
}

/// Why the manager ended with an error.
pub enum ManagerError {
    /// A thread of the manager died.
    Terminated,
}

/// The message the manager prints when its threads end, and its result.
pub struct ManagerOutcome {
    pub message: &'static str,
    pub result: Result<(), ManagerError>,
}

impl TaskManager {
    /// A manager on ports 5555 and 5556, with queues of 100 tasks and messages
    /// of 100 000 bytes, using the task store at `backend_address` (the default
    /// manager uses the configured database address).
    pub fn with_backend_address(backend_address: String) -> (m: Self)
        ensures
            m.source_port == 5555,
            m.result_port == 5556,
            m.queue_size == 100,
            m.message_size == 100_000,
            m.backend_address == backend_address,
    {
        TaskManager { source_port: 5555, result_port: 5556, queue_size: 100, message_size: 100_000, backend_address }
    }

    /// The settings of the ventilator, which dispatches tasks on the source port.
    pub fn ventilator_config(&self) -> (c: ServerConfig)
        ensures
            c.port == self.source_port,
            c.queue_size == self.queue_size,
            c.message_size == self.message_size,
            c.backend_address@ == self.backend_address@,
    {
        ServerConfig {
            port: self.source_port,
            queue_size: self.queue_size,
            message_size: self.message_size,
            backend_address: string_from(self.backend_address.as_str()),
        }
    }

    /// The settings of the sink, which receives results on the result port.
    pub fn sink_config(&self) -> (c: ServerConfig)
        ensures
            c.port == self.result_port,
            c.queue_size == self.queue_size,
            c.message_size == self.message_size,
            c.backend_address@ == self.backend_address@,
    {
        ServerConfig {
            port: self.result_port,
            queue_size: self.queue_size,
            message_size: self.message_size,
            backend_address: string_from(self.backend_address.as_str()),
        }
    }

    /// The settings of the finalize thread, which persists finished tasks.
    pub fn finalize_config(&self, job_limit: Option<usize>) -> (f: Finalize)
        ensures
            f.backend_address@ == self.backend_address@,
            f.job_limit == job_limit,
    {
        Finalize { backend_address: string_from(self.backend_address.as_str()), job_limit }
    }

    /// How the manager ends once its threads have: the first thread that died,
    /// in the order ventilator, sink, finalize, is reported with an error;
    /// otherwise the manager terminated successfully.
    pub fn outcome(ventilator_ok: bool, sink_ok: bool, finalize_ok: bool) -> (r: ManagerOutcome)
        ensures
            r.message@ == (if !ventilator_ok {
                "Ventilator thread died unexpectedly!"@
            } else if !sink_ok {
                "Sink thread died unexpectedly!"@
            } else if !finalize_ok {
                "DB thread died unexpectedly!"@
            } else {
                "Manager successfully terminated!"@
            }),
            r.result is Ok <==> ventilator_ok && sink_ok && finalize_ok,
    {
        if !ventilator_ok {
            ManagerOutcome {
                message: "Ventilator thread died unexpectedly!",
                result: Err(ManagerError::Terminated),
            }
        } else if !sink_ok {
            ManagerOutcome {
                message: "Sink thread died unexpectedly!",
                result: Err(ManagerError::Terminated),
            }
        } else if !finalize_ok {
            ManagerOutcome { message: "DB thread died unexpectedly!", result: Err(ManagerError::Terminated) }
        } else {
            ManagerOutcome { message: "Manager successfully terminated!", result: Ok(()) }
        }
    }
}

} // verus!
