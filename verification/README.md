# TheSchedule backend

The backend of TheSchedule, a timetable web app for a school that uses
WebUntis: it formats Untis timetables for the frontend, merges the
"Lernbüros" (open study rooms) of the year groups, lists free rooms, and
manages accounts (sign-up, login, password and e-mail changes through mailed
links).

* `src/` is the verified library (Verus). `untis/` holds the timetable logic
  (formatting, holidays, lernbueros, free rooms, the Untis request data, and
  the steps of fetching a timetable or the Lernbüros of a week),
  `api/` the decisions of each HTTP endpoint as a state machine from state and
  event to next state and action, `models/` the stored data, `password.rs` the
  password rules, `governor.rs` the choice of the rate-limit key.
* `app/` is the server around it: actix-web routes, PostgreSQL through sqlx,
  e-mail through lettre, the Untis JSON-RPC requests through reqwest. Each
  endpoint runs its state machine: it performs the action the library asks
  for and hands back the event.
* `tests/` exercises the library on concrete values.
