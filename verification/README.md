# libretube_sync

The core of a server that synchronizes streaming-service data (subscriptions, watch
history) between the devices of a user, written in Verus.

- `src/` is the verified library:
  - `youtube/` reads YouTube channel RSS feeds: `xml_helpers` holds a plain model of a
    parsed XML document and the tag lookups, `channel` builds the feed address and turns
    a feed into a `ChannelRss`.
  - `handlers/user` decides the answers of the account endpoints and of the
    authentication middleware (name hashing, password checks, token claims, which token
    a request carries).
  - `database/` computes what the database layer needs (the watch-history page query,
    the subscription row); `models` and `dto` hold the records.
  - `util` renders bytes as hexadecimal.
- `app/` is the HTTP server (actix-web), the database access (diesel-async on
  PostgreSQL), token encoding (jsonwebtoken) and feed download (reqwest).
- `tests/` runs the library on concrete inputs.
