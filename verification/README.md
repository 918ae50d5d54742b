# regit_daycount

Day-count fractions, date-roll conventions and business-day calendars,
written in Verus and proved against their specifications.

- `src/` — the verified library. Every public function states in its
  `ensures` the value it returns, over spec functions of the same module
  (the civil day number of a date, the roll of a date under a business-day
  predicate, the holiday set of a calendar, the exact ratio of a day-count
  convention). Year fractions are returned exactly, as a
  `YearFraction { numerator, denominator }`.
- The laws of the library are public proof functions: `add_days`
  round-trips, day numbers are the lexicographic order of dates, Easter is a
  Sunday between 22 March and 25 April, the actual-day conventions negate
  under a swap of their dates, Act/360 is additive, a whole calendar year
  is one year under the leap-aware conventions, Act/Act ISDA has the sign
  of the interval and adds over a split of it, rolls leave business
  days alone and find the neighbouring business day, Bus/252 counts the
  calendar's business days, and the snapshot calendars are empty outside
  their coverage.
- `tests/` — the test suite, run against the compiled library.
- `app/` — the floating-point front end (`f64` year fractions) and the
  `Display` / `Error` impls of the error type.
