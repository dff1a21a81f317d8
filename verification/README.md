# osu_difficulty

Verified index and history logic of an osu!standard star-rating calculator
(aim, speed and reading skills).

- `src/` (verified with Verus): the newest-first history of recent objects
  (`recent`), the split of strain sections for the backload spike penalty
  (`sections`), the object indices the reading evaluator visits (`reading`)
  and the number of objects a partial play rates (`partial`).
- `app/`: the floating-point strain, reading and star formulas. They call
  the verified library for the recent-object history, the section split,
  the neighbour and lookback indices, the size of the memorised opening and
  the number of objects a play covers; the opening window itself is counted
  in `app/`, since it compares floating-point times.
- `tests/`: tests of the library on concrete values.
