# agent

A network monitoring agent: it runs probes (ICMP ping, TCP, TLS, HTTP GET,
HTTP content, DNS, bandwidth; the library also covers SQL and SNMP results,
which this build does not run), stores their measurements locally,
summarizes them per minute and reports the summaries to a central server,
whose copy of the tasks file it keeps in sync.

- `src/` is the verified library, in Verus: the decisions and formats of the
  agent, each with its contract, and the laws that hold across calls.
  - `text` — character-level helpers (trimming, tokens, number parsing).
  - `http_wire` — the timed HTTP exchange: request, head, body framing.
  - `target` — URLs, default ports, certificate lifetime.
  - `executor`, `ping`, `bandwidth`, `http_content`, `snmp`, `sql` — what each
    probe reports and when a run counts as failed.
  - `scheduler` — which task may start, the result buffer, flush, minute
    aggregation and queue cleanup timing.
  - `queue` — send queue statuses, metric kinds, retry backoff, statistics.
  - `tasks` — the monitoring tasks and the checks a configuration must pass
    before it is used.
  - `config`, `config_sync`, `agent` — settings and overrides, the
    configuration held (only ever a validated one), the tasks file hash and
    transfer format, the agent's periodic duties.
  - `summary` — counts for the per-minute summaries.
  - `clock` — seconds since the Unix epoch.
- `tests/` exercises the library on concrete values.
- `app/` is the program around it: command line, files, SQLite, sockets,
  TLS, HTTP and the async runtime.
