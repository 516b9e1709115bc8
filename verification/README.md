# mypaas

A small platform as a service: it takes compiled applications, runs each one as a process with a
port, a subdomain, a database and S3 storage of its own, suspends those that nobody uses, and wakes
them again with the next request.

The library under `src/` holds what the platform decides and computes, with contracts that Verus
proves:

- `config`, `paths`, `tree`, `s3`: where things are kept, and that no project reaches into another;
- `db::models`: users, sessions, projects, their history and their buckets;
- `runner`: processes, metrics, logs, bundles, snapshots, the environment of a process, the proxy;
- `api`: every request as a run of stages, from its authentication to its answer;
- `dashboard`: logging in, the pages, and their texts in two languages.

Proof functions whose names begin with `law_` state what holds across functions.

The program under `app/` carries the decisions out: it reads and writes files, talks to the database
and to clients, and starts and kills processes.
