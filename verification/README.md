# rekos

A remote control hub for an astrophotography rig driven by KStars/Ekos.
Browsers connect over a WebSocket; one KStars instance attaches on the
other side; the hub relays messages, keeps a model of the rig, and serves
the captured frames.

## Layout

- `src/` — the library, verified with Verus.
  - `kstars`, `server`, `apps`: the hub's attach/detach rules, its
    configuration and authentication decisions.
  - `wire`, `json`, `text`, `indi`: message framing, JSON access and
    INDI property helpers.
  - `store`, `status`, `session`: the device store that every Ekos event
    updates, the per-module status records, and the requests a client
    session sends.
  - `rig`, `sequence`, `scheduler`, `polar`, `sky`, `tabs`: profiles and
    optical trains, capture sequences, scheduler jobs, polar-alignment
    stages, the sky-chart index and the tab bar.
  - `files`, `fits`: capture listings, path safety, image thumbnails and
    their cache paths, and FITS header/layout parsing.
- `tests/` — tests of the library on concrete values.
- `app/` — the server binary: argument handling, the HTTP and WebSocket
  routes, reading JSON text into the library's `Json`, and FITS rendering,
  which call into the library; plus the web client's floating-point helpers.
