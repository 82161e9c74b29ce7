# pbskids-dl

Downloads videos from PBS Kids video pages.

- `src/` is the verified library (Verus): locating the JSON document in a
  page (`text`), the document model and its lookups (`json`), the page rules
  that yield the video list and the file name (`assets`), the choice of the
  video and the steps of the copy loop (`downloader`), the configuration and
  where it is looked for (`config`), and the exit codes and error messages
  (`errors`).
- `app/` holds the command line and window front ends: argument parsing,
  HTTP requests, files, the terminal progress bar and the window.
- `tests/` exercises the library with the real outside crates.
