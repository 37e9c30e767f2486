# fast_down_c

The verified core of a C interface to the `fast-down` multi-threaded
downloader, written in Verus.

- `src/` is the library that Verus verifies: C strings (`ctext`), text and
  decimal conversions (`text`), download settings (`config`), file information
  and safe file names (`url_info`), the run and pause state of a download
  task (`download`), prefetch outcomes (`prefetch`), download events (`event`),
  push and flush callback results (`pusher`) and `SafePtr`.
- `app/` is the C interface itself: `extern "C"` functions over raw pointers
  (with their null checks), the tokio runtime and its cancellation tokens, the
  callbacks, IP address parsing (`std::net`), and the loop that drives a run
  and forwards its events. It calls the library for the settings, the file
  information, the run state (start, finish, pause) and every message and
  event record.
- `tests/` runs the library on concrete values.
