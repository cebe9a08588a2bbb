# multilinguarr

A service that keeps per-language media libraries in step with Radarr and
Sonarr: webhooks are queued as jobs, each imported file is probed for its
audio languages, and links to it are placed in the library of every
instance whose language it carries; titles are added to or deleted from
sibling instances as configured.

- `src/` is the verified library (Verus): configuration, API input checks
  and schemas, the link and delete planning, episode deduplication, the
  regeneration walk's decisions, the job queue's retry rules, the
  dispatcher and refresh-debouncer state machines, with their laws stated
  as public proof functions.
- `app/` is the program around it: HTTP server, SQLite store, Radarr,
  Sonarr and Jellyfin clients, ffprobe, the filesystem, and the tasks that
  drive the library's state machines.
- `tests/` exercises the library on concrete values.
