# vdm

The engine of a desktop download manager, written in Verus. Every
function in `src/` carries a contract; Verus proves all of them except
eleven small wrappers (`#[verifier::external_body]`) around calls into std,
`reqwest`, `serde_json`, `urlencoding` and `rand`, whose contracts are
trusted as stated in their doc comments.

- `src/` — the verified library
  - `text` — the string toolkit the rest is written with
  - `storage`, `worker` — chunk plans, work stealing between connections,
    range requests and retry decisions
  - `downloader` — the scheduler (how many downloads run, which starts
    next), task naming, progress snapshots
  - `probe` — file names from headers and links, magnet links
  - `server` — the loopback API the browser extension talks to
  - `ytdl`, `torrent` — video-site and magnet handling
  - `browser`, `startup`, `ui`, `session`, `icon` — what the desktop shell decides
- `tests/` — tests of the library on concrete values
- `app/` — a headless driver: HTTP transfers, the database, the local
  server socket, processes, the registry; it performs the I/O and hands
  what it read to the library, which makes the decisions (floating-point
  work, the rate limiter and size/speed texts, stays here)
