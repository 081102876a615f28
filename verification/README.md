# awr_team_pg

The rules of a Postgres store for work that a team of people and agents shares: leases and fences,
executions and their reports, dependency graphs, plans and their way into the source, handoffs,
deliveries, audit, and what an operator may do when something went wrong.

- `src/` holds the rules. Each takes what was read from the database as plain values and says what
  is answered and what is written; its contract says so exactly, and Verus proves it. The laws that
  span several rules are public proof functions beside them.
- `tests/` runs the rules on concrete values.
- `app/` is the database side: it reads, asks a rule, and writes what the rule answered. What other
  parts of the system provide (connections, authority, the source) comes in through its `Host` trait.
