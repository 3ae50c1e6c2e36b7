# simulation

A following-distance simulation: car b brakes, car a follows and brakes after
its driver's reaction time. Do they crash, when, and how?

- `src/` is the verified library (Verus): the phase-by-phase crash search, the
  end of the simulation, the spans of time the equations of motion use, and the
  settings and clock of the simulation with the messages that change them.
  Spans and instants are nanosecond counts; real-valued settings are held as
  `f32` bit patterns and never computed with.
- `app/` is the window (iced): widgets, drawing, the clock, and the
  floating-point physics (stopping times, the quadratics and their roots,
  positions and speeds). The car images are read at run time from `assets/`.
- `tests/` runs the library on concrete values.
