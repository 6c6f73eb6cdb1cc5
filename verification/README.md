# mcmc_demo

The verified core of an interactive Random-Walk-Metropolis-Hastings sampler.

- `src/simulation`: the bookkeeping of the Markov chain (`Rwmh`), with the
  invariant that ties the sample counters to the history, and the choice and
  seeding of the chain's random number generators.
- `src/helpers`: the rules of the single-value channel and of the processor
  that only runs the latest task, as state transitions over their shared slot,
  and the progress/abort handle of background jobs.
- `src/bg_task`: a simpler progress/abort handle.
- `app/`: a headless program around the library: floating point proposals
  and acceptance, the target density, threads, tokio tasks and egui widgets.
