# omarchy_quickshare

The verified core of Omarchy Quick Share, an account-free Quick Share
endpoint for Omarchy, written in Verus.

- `src/` is the library. Verus proves every function against its contract,
  except the few small wrappers around `toml_edit`, `rustix` and std whose
  contracts are trusted (marked `external_body`, each documented with what it
  claims of the outside call):
  - `cli`: the command grammar (`send`, `status`, `discover`, `share`,
    `config`, `daemon`, ...), including help and version text, which never
    reach the local endpoint.
  - `request`, `uri`: how a content argument becomes a text, URL or file
    share, and how local `file:` URIs and `text/uri-list` arguments decode.
  - `config`: strict TOML settings, read and patched through `toml_edit`.
  - `visibility`, `consent`, `clock`: inbound discoverability, temporary
    openings that close after 600 boot-clock seconds, and the consent deadline
    each offer captures.
  - `timeouts`: search and transfer deadlines captured when an operation
    begins.
  - `archive`: CRC-32 and the headers of store-only ZIP archives.
  - `observations`, `media`, `response`: public reason codes, recovery
    guidance, ETA, media order, and the text printed for endpoint answers.
- `tests/` exercise the library on concrete values.
- `app/` is the command-line program: process arguments, files, the control
  socket, and printing.
