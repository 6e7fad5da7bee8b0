# spx-transcoder

A pool of workers that takes media files from a queue, transcodes the audio of each into mono
16 kHz 32-bit float PCM, stores the result in a bucket directory, and reports back to a database.

`src/` is the verified library. It holds every decision of the program as state machines: a call
returns the next action to perform, and the reply to that action is handed to the next step.

| module             | what it decides                                               |
|--------------------|---------------------------------------------------------------|
| `queue`            | when jobs are pulled, published, received and given up        |
| `sync_update`      | when reports are published and written to the database        |
| `worker`           | what a worker does with a job, and what it reports            |
| `transcoder`       | the order of the calls into the media library                 |
| `temp_allocator`   | where a finished file is moved                                |
| `bucket_allocator` | which bucket directory has room                               |
| `bucket_id`        | the names of new buckets                                      |
| `db`               | the queries and their columns                                 |
| `path`, `text`, `time` | paths, decimal numbers and error texts, instants          |

`app/` is ordinary Rust: it performs the actions (database, message broker, file system, FFmpeg)
and feeds the replies back. `tests/` runs the library.

What is taken on trust: the clock and its RFC 3339 text (`chrono`), and the random identifiers and
their text (`uuid`). Each is a small wrapper in `time` or `bucket_id`.
