use vstd::prelude::*;

verus! {

/// Why a run cannot start.
#[derive(Clone, Copy, Debug, PartialEq, Eq, Structural)]
pub enum ConfigError {
    /// The trial count is zero.
    NoSimulations,
    /// The chunk size is zero.
    EmptyChunks,
}

/// A validated run: how many trials, grouped in chunks of how many.
#[derive(Clone, Copy, Debug, PartialEq, Eq, Structural)]
pub struct RunConfig {
    pub simulations: u64,
    pub chunk_size: u64,
}

/// The sum of a sequence of chunk sizes.
pub open spec fn total_of(s: Seq<u64>) -> int
    decreases s.len(),
{
    if s.len() == 0 {
        0
    } else {
        total_of(s.drop_last()) + s.last()
    }
}

impl RunConfig {
    pub open spec fn wf(&self) -> bool {
        self.simulations > 0 && self.chunk_size > 0
    }

    /// Accepts a run of at least one trial in chunks of at least one.
    pub fn new(simulations: u64, chunk_size: u64) -> (r: Result<RunConfig, ConfigError>)
        ensures
            simulations == 0 ==> r == Err::<RunConfig, ConfigError>(ConfigError::NoSimulations),
            simulations > 0 && chunk_size == 0 ==> r == Err::<RunConfig, ConfigError>(
                ConfigError::EmptyChunks,
            ),
            simulations > 0 && chunk_size > 0 ==> r == Ok::<RunConfig, ConfigError>(
                RunConfig { simulations, chunk_size },
            ),
    {
        if simulations == 0 {
            Err(ConfigError::NoSimulations)
        } else if chunk_size == 0 {
            Err(ConfigError::EmptyChunks)
        } else {
            Ok(RunConfig { simulations, chunk_size })
        }
    }

    /// The trial counts of the chunks, in order: every chunk full but possibly
    /// the last, which holds the remainder; together they make the whole run.
    pub fn chunks(&self) -> (r: Vec<u64>)
        requires
            self.wf(),
        ensures
            total_of(r@) == self.simulations,
            forall|i: int| 0 <= i < r@.len() ==> 1 <= #[trigger] r@[i] <= self.chunk_size,
            forall|i: int| 0 <= i < r@.len() - 1 ==> #[trigger] r@[i] == self.chunk_size,
    {
        let mut sizes: Vec<u64> = Vec::new();
        let mut start: u64 = 0;
        while start < self.simulations
            invariant
                self.wf(),
                start <= self.simulations,
                total_of(sizes@) == start,
                forall|i: int| 0 <= i < sizes@.len() ==> 1 <= #[trigger] sizes@[i] <= self.chunk_size,
                forall|i: int|
                    0 <= i < sizes@.len() ==> #[trigger] sizes@[i] == self.chunk_size || (i
                        == sizes@.len() - 1 && start == self.simulations),
            decreases self.simulations - start,
        {
            let left: u64 = self.simulations - start;
            let size: u64 = if left < self.chunk_size {
                left
            } else {
                self.chunk_size
            };
            let ghost before = sizes@;
            sizes.push(size);
            assert(sizes@.drop_last() =~= before);
            start = start + size;
        }
        sizes
    }
}

} // verus!
