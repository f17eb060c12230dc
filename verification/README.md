# acadrust (verified DWG reading)

A Verus library that reads the binary DWG drawing format: the bit-level
stream of DWG data, the sections of a file (handles, classes, summary
info, preview, application info), handle references, the file header of
R13–R2000 files, the encrypted header block of R2004 files and the byte
interleaving used by R2007 files.  Every function is stated in
`requires`/`ensures` contracts over a mathematical model of the stream and
proved by Verus.

Layout:

- `src/bit_model.rs` — the model of a bit stream (`BitCursor`) and of the
  primitive reads; `src/stream_reader.rs`, `src/stream_values.rs` — the
  reader, proved against that model; `src/merged_reader.rs` — the
  three-stream reader of R2007+ objects.
- `src/handle_reader.rs`, `src/classes_reader.rs`,
  `src/summary_info_reader.rs`, `src/preview_reader.rs`,
  `src/app_info_reader.rs`, `src/header_reader.rs` — section readers, each
  with a specification of the section layout.
- `src/dwg_reader.rs` — the file: version signature, file header, section
  location; `src/reed_solomon.rs`, `src/reference_type.rs`,
  `src/section_io.rs`, `src/sentinels.rs`, `src/templates.rs` — format
  helpers and object templates.
- `src/header_layout.rs`, `src/header_variables.rs` — the order of the
  header variables per version, and their meaning: named variables with
  their range checks and flag words, and the named handles.
- `src/object_reader.rs` and the modules of entities, table entries and
  objects (`src/geometry_entities.rs`, `src/table_entries.rs`,
  `src/object_records.rs`, …) — the readers of each object type;
  `src/object_dispatch.rs` — the object types by code, the dispatch of an
  object to the reader of its type, and the loop that reads every object
  that the queue of handles leads to.
- `app/` — reading files from disk and turning raw values (IEEE-754 bit
  patterns, Julian dates) into floats.

Doubles are handed out as their bit patterns (`u64`); `f64::from_bits`
turns them into floats.

Sections of R2004 and later files are stored compressed (and their page
maps encrypted); this library does not decompress them, so
`DwgReader::get_section_stream` refuses them with `InvalidFormat`, and
the readers of those sections (summary info among them, which only those
files have) give `None` through the file reader.  The section readers
themselves take decompressed section bytes of any version, and
`page_map_records` reads the pages of a decompressed page map.
