# linear-sync

Keeps [taskwarrior](https://taskwarrior.org) tasks and [Linear](https://linear.app) issues in
step.

- `push-task` makes an issue for a task and notes the issue in the task.
- The `on-modify` hook brings changes of such a task to its issue: completion, start, title,
  description, comments and annotations. The `on-add` hook passes a new task on as it is.
- `setup` makes the settings, `install-hooks` puts the hooks in place, and `ids` lists the ids
  that the settings need.

## Layout

- `src/` is the library, verified with [Verus](https://github.com/verus-lang/verus). It decides
  what is asked, sent, printed and written, and reads what comes back.
  - `hooks`, `push` and `setup` hold the three long flows. `push` and `setup` are machines that
    name one thing to do at a time and take its outcome as an event.
  - `client` holds the requests and their replies, `task` what is read from a task, `config`,
    `install`, `ids` and `prompt` the smaller flows, and `json` and `text` what they share.
  - The functions named `law_...` state what holds across calls: that no change is sent twice,
    that a task gets one issue, that installing again adds nothing.
- `app/` is the program around it: the terminal, files, the network and taskwarrior itself.
- `tests/` runs the library.

## What is trusted

The proofs rest on what `src/` says of `serde_json` (`json`), `uuid` (`push`) and a few methods
of `str` and `String` (`text`). Each of these functions is marked `external_body`, and the comment above it
says what is taken for granted.
