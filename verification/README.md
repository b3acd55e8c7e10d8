# rbx_api

A client library for the Roblox web APIs that Mantle uses to deploy
experiences: badges, developer products, game passes, experiences, thumbnails
and assets.

`src/` is the library, verified with Verus. It decides everything that does
not need the network:

- `request`: the requests it sends, as values (method, URL, query, body,
  credentials), and the check that an Open Cloud API key is configured;
- `assets`, `badges`, `developer_products`, `experiences`, `game_passes`,
  `thumbnails`: the request of each operation, and the decisions taken on the
  answers (asset operation polling, idempotent icon removal, activation
  advice);
- `pagination`: collecting paged listings;
- `helpers` and `errors`: how a failed response becomes an error, and the
  errors' messages;
- `text`: the string operations these rest on.

`app/` sends the requests with `reqwest`, reads the answers with `serde`, and
hands the library plain values.
