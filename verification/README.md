# fischl

A support library for a game launcher: it plans and checks the downloads,
repairs, patches and extractions of HoYoverse (single archives and Sophon
chunked manifests), Kuro Games and Yostar releases, of Wine runners, DXVK and
the Steam Linux Runtime, and of the launcher's extra packages.

The library in `src/` is written in Verus. Every public function carries a
contract over a mathematical model of its inputs and results, and Verus
proves the code against it, together with laws that relate several
functions (round trips of voice locales and decimal numbers, the coverage of
a download by its chunk writes, the order and bounds of retries, the layout
of working directories, and more). It takes its decisions from plain values:

- `text`, `paths`: string and path helpers with the semantics of `std`.
- `downloader`: resuming, free-space checks and chunked writes of a download.
- `digest`, `token`: MD5 and SHA-256 checks, random URL-safe tokens.
- `integrity`: integrity lists and the repair run over them.
- `archive`: archive formats, entry placement, permissions, extraction order.
- `game`, `zipped`, `sophon`, `kuro`: the installers' layouts, checks,
  retries, totals and patch handling.
- `sophon_job`, `sophon_patch`: the runs that install, repair, patch or
  install a preloaded patch of one Sophon file, as state machines whose
  every step is stated exactly: which chunk or patch archive to fetch, the
  MD5 checks, the zstd decompression, the writes at chunk offsets, how each
  patch is applied, and the retries.
- `sophon_preload`, `yostar_repair`: the runs that preload the patch
  archives of one Sophon file (each shared archive claimed once per session)
  and that repair one Yostar file, in the same form.
- `progress`, `system`, `steamrt`, `github`, `codeberg`, `extras`,
  `voice_locale`: progress reports, disks and processes, runtime images,
  release metadata, extra packages and voice-over locales.

Calls into outside crates that only compute (MD5 through `md-5` and
`chksum-md5`, SHA-256 through `sha2`, zstd decompression) stand behind small
trusted wrappers whose contracts are stated next to them.

`app/` holds the input and output around the library: HTTP requests,
files, archives, processes and Wine, each step asking the library what to
do. Its Sophon runners take manifests already decoded from protobuf; the
library decompresses the manifest bytes (`sophon::decode_manifest`), and the
protobuf schema is not part of this project. `tests/` exercises the library on concrete values.
