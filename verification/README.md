# gymspace

The rules of a gym and community back end, written in Verus and proved against their
contracts: request validation, one-time-password sign-in and reset flows, phone-number
normalisation, member, coach, branch and event updates, cart planning against the stock, picture and
attachment handling, thread votes and listings, and the branch dashboard.

Layout:

- `src/` — the verified library. `text`, `decimal` and `object_id` hold the string, number and
  record-id helpers; `validation` the field rules; `outside` the calls into `validator`,
  `bson`, `bcrypt` and `chrono`, each behind a stated contract; `feature/*` the rules of each
  area, with the laws that tie their operations together as proof functions.
- `tests/` — tests of the library on concrete values.
- `app/` — a command-line front end: it reads a JSON request, reads the clock where a rule needs
  the time, calls the library and prints the JSON answer. Money amounts are floating-point
  numbers, so checkout totals and chart sums are computed there.
