# mpmc

Bounded queues for producers and consumers, with their logic verified by
Verus.

Every queue here is a state machine: a push or a pop is one step that either
completes, or reports that the caller has to wait (and hands the element
back). The contracts say exactly what each step does to the queue's contents,
modelled as a sequence (for the counter-driven queue, together with its
counters), and which waiting parties the caller should wake. Laws over whole
runs of steps say that nothing is lost, duplicated or made up.

- `src/fast_queue.rs`: a queue with one "closed" flag.
- `src/mpmcq.rs`: a queue with separate send and receive ends.
- `src/mpmcq2.rs`: a queue driven by two semaphore-like counters, with the
  `Event` and `Indexer` it is built from.
- `src/usizeq.rs`: a queue of words, with the counter cell and ring position
  it is built from.
- `src/mysync.rs`: resource counters and a value-carrying event.
- `src/config.rs`: the command-line settings of a benchmark run, and the run
  they lead to.
- `src/ring.rs`: the ring buffer behind the first two queues.
- `src/fifo.rs`: runs of first-in first-out steps, and what they conserve.

`app/` is the benchmark program: it shares the queues between threads
(a lock around each queue, condition variables for the waits), runs
producers and consumers for a while, and reports throughput.
