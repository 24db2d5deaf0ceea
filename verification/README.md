# rest_reminder

The rest-reminder scheduler of a Pomodoro desktop application, as a verified
Verus library.

- `src/` holds the scheduler's logic: the countdown, manual and Pomodoro pauses,
  overlays, pause warnings, snapshots and the controller handle. Every
  transition takes the current moment as an argument and is specified exactly;
  `src/laws.rs` proves properties across operations (a pause keeps the seconds
  left, the displayed countdown never exceeds its interval, and others).
- `app/` is the Tauri side: the scheduler thread that receives requests and
  ticks every 250 ms, the overlay windows and the events sent to the web view.
- `tests/` runs the library on concrete moments.
