# file_uploader

A file uploader and gzip compressor whose decisions are verified with Verus.

- `src/` is the verified library:
  - `text`: characters of strings, `trim` as `str::trim` does it, and
    reading a `u32` as `u32::from_str` does.
  - `menu`: the compression menu (1 default, 2 fastest, 3 best) and flate2's
    levels for it.
  - `paths`: `Path::file_name` and `Path::join` with `/` separators, and the
    names under which uploads and compressed copies are stored.
  - `gzip`: gzip compression of in-memory contents with flate2.
  - `compress`: the compressed copy of one file: where it goes, what it holds.
  - `database`: the rows of the `processes` table and the steps of recording one.
  - `loadfile`: the upload form, the files of an upload and the steps of an upload.
- `app/` runs the programs: the command-line uploader, the upload server
  (started as `rust-hello-server`) and the one-file compressor (started as
  `standalone-file-compression-function`). It does the I/O, the database
  queries and the background tasks, in the order the library decides.
- `tests/` exercises the library on concrete values, against std and flate2.
