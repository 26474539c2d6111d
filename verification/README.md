# nvimx (verified library)

nvimx manages Neovim profiles: it launches `nvim` with `NVIM_APPNAME` set to
`nvim/<profile>`, installs profiles from git or from JSON registries, runs a
profile in a throwaway sandbox, and sets up shell integration.

The decisions of the tool live in `src/` and are proved with Verus:

- `profile` — profile names, reserved names, how a command line becomes a
  launch of Neovim, the picker's candidates and the sorted listing.
- `paths` — Unix path joining and parents, the XDG roots, the nvimx and
  profile directories, display shortening.
- `registry` — registry contents and validation, the one-hour cache, the
  lookup session that tries cache, registries and fallback in order, and
  the resolution of a name to a repository URL.
- `config` — settings, their defaults, the single `registry_url` key that stands for a one-element `registry_urls`.
- `shell` — shell detection, wrapper and environment scripts, their files.
- `doctor`, `update`, `sandbox`, `prompt`, `cli` — the smaller decisions of
  those commands.
- `text` — the string searches and rewrites the rest is built from.

`app/` is the program around it: argument parsing with clap, files,
processes and network, each calling the library for what to do.
