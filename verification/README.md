# kiri

The verified core of Kiri, a screenshot and screen-recording desktop
application. Every module under `src/` is checked by Verus: each public
function carries a contract over mathematical models (`Seq`, `Map`, spec
functions), and the laws that span several calls are stated and proved as
public proof functions.

## Layout

- `src/` — the library.
  - capture: `capture` (permission gate, native stop tracking, display
    indices, PNG header and capture validation), `frame` (RGBA→BGRA and BGRA
    block cropping), `frozen` (waiting for a frozen display capture),
    `audio` (device configuration choice, planar→interleaved samples).
  - recording: `policy` (options, sizes, bit rate, clock label),
    `recording` (channels, platform recorder, finalization outcome and
    cleanup), `recording_session` (begin/pause/resume/stop decisions and messages),
    `recording_recovery` (file fingerprints, recovery file names, which
    directory entries are recordings, manifest checks, import proofs), `gif` (export and thumbnail
    sizes), `media_pipeline` (pipeline path escaping).
  - library: `asset` (kinds, titles, tags, search text), `asset_index`
    (selection, partition, view order, extensions), `library_location`
    (availability state machine, identity records), `library_migration`
    (manifest entries and their comparisons), `library_status` (status DTOs), `media_import`
    (accepted imports, size limits, image normalization, titles),
    `video_project` (draft validity, sticker images, revisions, save
    checks).
  - editor and settings: `editor`, `annotation`, `annotation_document`
    (annotation document bounds), `shortcut`, `tray`,
    `frontend` (window checks, interface language), `ocr_provider` (provider
    settings store), `ocr_retry`.
  - `text` — verified string helpers shared by the modules above.
- `tests/` — behaviour tests run against the compiled library.
- `app/` — desktop glue that stays outside verification: JSON forms of the
  library's types, the media import, annotation documents and video drafts
  with the verdicts
  on their floating-point geometry, the OCR settings file, the recording recovery directory, the
  reads of a library being moved, system locale and data directory, and the floating-point recording helpers.
