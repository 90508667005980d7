# caret_context

Gives the post-processing step of dictation software enough context to decide
casing, capitalization and whether the dictated text continues an existing
sentence: the text on both sides of the caret in the focused application or,
where the application exposes none and the user has opted in, a small screenshot
around the caret.

- `src/` is the library, verified with Verus. It holds every decision: what is
  asked of the accessibility interface and in which order, how text is cut, when
  a screenshot is taken, when the Screen Recording permission may be checked and
  how the prompt is bracketed. The `law_*` proof functions state what holds of it
  as a whole.
- `app/` is ordinary Rust around it: the process-wide slots, the calls into
  macOS and the UI commands.
- `tests/` runs the library.

What the library relies on without proof: `String::push`, `char::from_u32` and
`String::from_utf8` of the standard library.
