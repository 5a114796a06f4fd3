# empowerd

The verified core of empowerd, a daemon that reads energy meters, inverters,
batteries and weather stations into a time series database and switches
appliances by the power that is available.

Layout:

- `src/` holds the library, written in Verus with contracts and proofs:
  - `multi_setpoint_hysteresis` – the setpoint controller, in exact rational
    arithmetic, with its laws (a selected setpoint is kept while its range
    holds the input, processing is idempotent, and with a positive
    hysteresis the linearly spaced setpoints cover the open input range,
    where with only two setpoints the input range must be narrower than
    twice the hysteresis);
  - `miner` – aligned sleeping, retry and reset decisions, the steps of a
    miner's round, day data filtering and the small rules of the device
    miners;
  - `influx` – InfluxQL query texts and the reading of query results;
  - `graphql` – the API objects, login checking, request routing and
    session tokens;
  - `gpio_switch` – switch channels and their line levels;
  - `migrations` – rain accumulation, the batching of data migrations and
    the choice of table per source;
  - `csvimport` – parsing of exported records (dates, solar energy, reset
    flags);
  - `error`, `daemon`, `text` – errors, exit codes and string helpers.
- `tests/` runs the library on concrete values.
- `app/` is plain Rust around the library: database and device I/O, the
  HTTP and GraphQL plumbing, command line arguments and the records with
  physical (floating point) units.
