# ygege

The decision logic of a tracker gateway that reaches the tracker through
FlareSolverr, written in Verus and proved against its contracts.

- `src/` is the verified library. Every piece of outside work (HTTP calls,
  DNS, files, sleeping) is described as a step of a state machine. The caller
  does the work and reports back, and the machine gives the next step:
  `flaresolverr::SessionFlow`, `flaresolverr::YggFetch`, `auth::LoginFlow`,
  `rest::user::UserInfoFlow` and `rest::torrent::TorrentFlow`. Each reply of
  an endpoint is a plain `rest::HttpReply`. Text handling (decimal numbers,
  trimming, splitting, searching) is in `text`, and the login form's
  percent-encoding is in `encoding`.
- `tests/` runs the library on concrete values.
- `app/` is the async side: wreq, actix-web, trust-dns and the tokio tasks. It
  drives the machines.

The outside crates called from `src/` (`urlencoding`, `qstring`, `serde_json`)
are behind a few `external_body` wrappers. Their contracts state what those
crates' sources show.
