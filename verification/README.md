# bzmm

The core of a mod manager for DCS World, verified with Verus.

A profile pairs a DCS installation with a mod repository. The manager
reads the repository's listing, compares it with the mods installed
locally, downloads and extracts mods through a queue, and enables,
disables, deletes and updates them per profile.

## Layout

- `src/` — the verified library. The operations that alternate file,
  network and interface work with decisions (building a profile's mod
  view, downloading, extracting, managing an installed mod) are state
  machines: each answer to a step gives the next step, and their
  contracts state every transition. The download queue, the settings,
  the listing comparison and the naming of download directories are
  plain verified data structures and functions.
- `tests/` — tests of the library on concrete values.
- `app/` — the commands around the library: settings file, cache
  directory, archive reading, file copying, task spawning and events.
  It carries out the steps the state machines ask for.
