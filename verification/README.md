# matrix_room

The decisions of a Matrix client about rooms, verified with Verus.

`src/` is the library. It judges what a client asks of a room and says what has to be done, in plain
values. It never touches the network or the file system.

| module | what it decides |
| --- | --- |
| `upload` | the steps of uploading an image, a voice message, a video or a file |
| `thumbnails`, `local_files` | what a client says of files, and what the file system says of them |
| `uploaded` | the records that uploads end in: what is wrong with one, and the message it becomes |
| `sending` | the steps of sending an uploaded piece of media, possibly as a reply |
| `messages` | events that a client composes itself, redactions, reports |
| `raw_events` | events as they came from the server: filters, relations |
| `drafts` | drafts of messages, as clients see them and as they are stored |
| `send_queue` | what a client hears of events that wait to be sent |
| `timeline` | which events a timeline shows |
| `trust` | the walks over users and devices before a message is sent again |
| `members`, `access`, `avatar`, `about` | power levels, aliases, previews, history, pictures, memberships |
| `media`, `mimetypes`, `waveform`, `numbers`, `ids`, `text`, `errors` | the values that the others are made of |

Contracts are stated over texts (`Seq<char>`), numbers and the library's own types. A public proof
function whose name starts with `law_` states what holds across functions.

`ruma`, `mime` and `serde_json` are called behind small functions whose contracts are believed, not
proved; each says in its comment what is claimed of the crate.

`app/` connects the library to `matrix_sdk`, to files and to JSON. `tests/` runs the library with the
real crates.
