# load_balancer

An HTTP load balancer whose core is verified with Verus: worker selection
strategies (round robin, least connections), per-worker metrics kept as
exponential moving averages in fixed-point arithmetic, and a decision engine
that switches the strategy when a majority of workers show high error rates
or high latency, with a cooldown between switches.

Layout:

- `src/` is the verified library. `domain/` holds the data types and errors,
  `load_balancing_strategy/` and `strategy/` the two forms of the strategies,
  `services/` the metrics collector, the decision engine, the load balancer
  service and the administrative operations, `routes/` the routing and the
  bookkeeping around forwarding, `load_balancer/` and `admin/` the simple
  balancer over strategy names, and `utils/` configuration, constants and
  text helpers.
- `app/` is the executable: command line, configuration file, the HTTP
  server and client, JSON, logging and graceful shutdown.
- `tests/` exercises the library.

Rates and the smoothing factor are fixed-point integers scaled by 10000
(`utils::constants::FIXED_POINT_SCALE`); `app/` converts the decimal values of
the command line and configuration file.
