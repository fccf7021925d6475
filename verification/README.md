# flight_computer

A flight computer for a simulated rocket, verified with Verus.

- `rocket`, `states`: the typestate flight-phase machine. `Rocket<Phase>`
  moves from `PreLaunch` through `Ignition`, `MaxQ`, `MECO` and `Separation`
  to `Orbit`; `Ignition`, `MaxQ` and `MECO` can be aborted. Every transition
  carries the rocket's physical quantities over unchanged.
- `supervisor`: the event loop's decision for one event (`process_event`),
  the monitor's view of a state, and the laws of the phase machine: aborted
  and orbit are final, one event advances a flight at most one phase, and no
  phase is ever skipped.
- `sensors`, `simulation`: the simulated altimeter and sensor feed.
- `subsystems`: propulsion (engine switch and propellant burn), navigation
  (reference trajectory, deviation check, single Max-Q report) and telemetry
  (telemetry clock and velocity estimate, watchdog).

All quantities are integers: millimetres, millimetres per second, grams,
newtons, parts per million, tenths of a psi, and propellant units of
1/(Isp · g0) gram so that the engine burns a whole number of them per tick.

`app/` holds the program around the library: logging, threads and channels.
