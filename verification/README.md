# river

The data model and decision logic of a river map service: rivers, the
tracks and waypoints placed on them, accounts with their OAuth identities,
and the browser client's map screen. Everything under `src/` is verified
with Verus; `app/` holds the database access, the serde and sqlx forms of
the records, and the other I/O around the library.

- `src/api`: requests and answers, and who may send what.
- `src/accounts`: signing in and linking identities.
- `src/deletion`: what deleting an account archives and removes, and the
  SQL statements it runs.
- `src/river`, `src/json`: the records and their JSON position data.
- `src/track_editor`, `src/route_editing`, `src/layer_sync`, `src/map`,
  `src/pages`, `src/color`: the screens' state and decisions.
- `src/text`: trimming, comparing and reading and writing numbers.
