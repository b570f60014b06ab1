use vstd::prelude::*;
use vstd::string::*;

verus! {

/// Worker threads in the pool when the strategy is chosen by selector.
pub const DEFAULT_POOL_SIZE: usize = 10;

/// How the requests of a run are issued and awaited.
#[derive(Clone, Copy, Debug, PartialEq, Eq, Structural)]
pub enum Strategy {
    /// One request at a time, in index order, on the calling thread.
    Sequential,
    /// Every request handed to a fixed pool of worker threads, then awaited
    /// in submission order.
    PooledThreads { pool_size: usize },
    /// Two requests, each awaited before the next is issued.
    AsyncAwait,
}

impl Strategy {
    /// The strategy that a numeric selector names: `1` the worker pool,
    /// `2` async/await, anything else sequential.
    pub fn from_selector(selector: i64) -> (r: Strategy)
        ensures
            selector == 1 ==> r == (Strategy::PooledThreads { pool_size: DEFAULT_POOL_SIZE }),
            selector == 2 ==> r == Strategy::AsyncAwait,
            selector != 1 && selector != 2 ==> r == Strategy::Sequential,
    {
        if selector == 1 {
            Strategy::PooledThreads { pool_size: DEFAULT_POOL_SIZE }
        } else if selector == 2 {
            Strategy::AsyncAwait
        } else {
            Strategy::Sequential
        }
    }

    /// How many requests a run makes when `count` are asked for.
    pub open spec fn spec_request_count(self, count: nat) -> nat {
        match self {
            Strategy::AsyncAwait => 2,
            _ => count,
        }
    }

    /// How many requests a run makes when `count` are asked for: the
    /// async/await strategy always makes two.
    pub fn request_count(&self, count: usize) -> (r: usize)
        ensures
            r as nat == self.spec_request_count(count as nat),
    {
        match self {
            Strategy::AsyncAwait => 2,
            _ => count,
        }
    }

    /// Whether request `k + 1` may be issued before request `k` is collected:
    /// only the worker pool has several requests in flight.
    pub open spec fn spec_overlaps(self) -> bool {
        self is PooledThreads
    }

    pub open spec fn spec_start_label(self) -> Seq<char> {
        match self {
            Strategy::Sequential => "START SINGLE THREAD"@,
            Strategy::PooledThreads { .. } => "START MULTI THREAD"@,
            Strategy::AsyncAwait => "START ASYNC AWAIT"@,
        }
    }

    /// The text of the line that opens a run.
    pub fn start_label(&self) -> (r: String)
        ensures
            r@ == self.spec_start_label(),
    {
        match self {
            Strategy::Sequential => {
                proof { reveal_strlit("START SINGLE THREAD"); }
                String::from_str("START SINGLE THREAD")
            },
            Strategy::PooledThreads { .. } => {
                proof { reveal_strlit("START MULTI THREAD"); }
                String::from_str("START MULTI THREAD")
            },
            Strategy::AsyncAwait => {
                proof { reveal_strlit("START ASYNC AWAIT"); }
                String::from_str("START ASYNC AWAIT")
            },
        }
    }
}

} // verus!
