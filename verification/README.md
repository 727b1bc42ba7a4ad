# pendulums

The command line of the Pendulums time tracker: sign in, up and out, start,
stop, rename and list activities, create and list projects, and list notes.

## Layout

- `src/` is the library, verified with Verus. Each command is a step
  function from what happened (an `Event`: the start, the status of a reply,
  a body as it was read, an answer at a prompt) to what to do next (an
  `Action`: send a request, read a body, prompt, finish), with the text to
  print. Their contracts say which request each command sends, how each
  reply is read and what each command ends with.
  - `cli/http_helper.rs`: requests, replies, events and actions, and the
    screening that every reply goes through (no connection, 503, 403).
  - `cli/auth/`: the checks on email and password and the sign in, up and
    out exchanges.
  - `cli/activity/`: the activity commands and their tables; stopping an
    activity that started on an earlier day splits it into one activity per
    day.
  - `cli/project/`, `cli/note/`: creating a project, the project table and
    the notes.
  - `cli/text.rs`: decimal text, column padding and durations.
  - `cli/clock.rs`, `cli/paint.rs`: the clock and calendar (chrono) and
    terminal colors (colored), behind trusted wrappers.
- `app/` is the program around the library: argument parsing (clap), the
  HTTP client with its cookie store (reqwest), JSON (serde), prompts
  (inquire, rpassword) and the spinner. It runs a command by performing each
  action the library asks for and handing back what came of it.
- `tests/` exercises the library on concrete values.
