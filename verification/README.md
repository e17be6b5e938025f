# Day

A panel applet for the COSMIC desktop: a clock, a calendar with an optional Persian calendar
beside it, clocks of other time zones, a stopwatch and a countdown timer.

- `src/` is the library, verified with Verus. It takes messages and readings of the clocks, and
  gives the next state, what is to be sent out, and what the panel and the popup show.
- `app/` is the applet around it: widgets, D-Bus, stored settings, clocks and time zones.
- `tests/` runs the library.

Texts in the words of a locale come from `icu`, and date arithmetic from `jiff`. Both are called
from the library, behind functions whose doc comments say what is taken for granted of them.
Clocks, the time zone database and the environment are read in `app/`.

Instants are nanoseconds of a monotonic clock from a fixed origin, durations are nanoseconds, and
windows are known by numbers. What the stopwatch and the timer show is derived from instants, not
from ticks; `src/laws.rs` states what follows from that.
