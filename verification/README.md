# cruise_control

Adaptive cruise control for a line of cars, with its decision logic verified
by Verus.

- `src/structs.rs`: how the car ahead is seen (`CruiseControlPositionEnum`),
  from the outcomes of the position comparisons, and which acceleration rule
  follows.
- `src/radar.rs`: `RadarHistory`, the ten newest radar readings, newest
  first, and the pairs of consecutive readings that speeds come from; with
  proofs that the history always holds the newest readings and that the
  newest speed entry comes from the last two readings.
- `src/simulation.rs`: one tick of a line of cars, each car advanced against
  the state of the car ahead from before the tick.
- `app/main.rs`: the cars themselves. Positions, speeds and accelerations are
  floating-point numbers, so the physics (speed clamping, position updates,
  the gap fractions) and the comparisons that feed the library stay here.
