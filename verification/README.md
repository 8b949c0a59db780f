# a2app_core

The core of sandboxed Splash mini-apps: their manifests and header comments,
the capability catalog, the permission model and the store of the user's
answers, the registry of installed apps, the built-in apps, and the
decisions of the host-service broker that answers `host.request(...)` calls
from app isolates. Every function in `src/` is verified with Verus against
its contract; the public proof functions named `law_*` state what holds
across operations (a restricted app holds nothing, an undeclared group is
never granted, "Allow Once" never survives a restart, work is only done for
a granted group, and so on).

Layout:

- `src/text.rs`, `src/maps.rs`: character-level text helpers and the
  ordered string-keyed maps the store is built on.
- `src/permission.rs`, `src/capabilities.rs`, `src/catalog_laws.rs`: the
  permission groups, the catalog of single capabilities, and the laws that
  no id or wire name occurs twice and that every id is found.
- `src/manifest.rs`, `src/registry.rs`, `src/header.rs`, `src/builtin.rs`:
  manifests, their normalization, the registry, the header parser, and the
  pre-installed apps.
- `src/store.rs`, `src/store_laws.rs`: the permission store and its laws.
- `src/broker.rs`, `src/broker_laws.rs`: the reading of each request's JSON
  arguments, what the broker decides for each request, which apps lose the
  rest of a batch, and what holds of every decision.
- `src/dock.rs`, `src/screen.rs`: the bookkeeping and texts behind the dock
  and the management screens.
- `app/`: the host side that Verus does not see: paths on disk, reading the
  built-in scripts, the published grant snapshot, serialized forms, and the
  broker loop that performs the platform services through the robius crates.
