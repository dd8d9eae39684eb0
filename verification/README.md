# lander

Verified decision logic of a lander's flight software, written in Verus.

- `src/` — the verified library: flight phases and operator commands
  (`phase`), the flight termination check (`safety`), the per-step flight
  supervisor (`supervisor`), the measurement plan of the navigation filter
  (`navigation`), the sample and warm-start index logic of the
  model-predictive controller's reference (`reference`), the roll
  reaction-control switching logic (`rcs`) and the telemetry phase filter
  (`telemetry`). Each public function has a contract; the laws of the state
  machine are public proof functions.
- `app/` — the flight program around the library: estimation, guidance,
  control and their floating-point arithmetic, the console, and MCAP
  logging. It computes the observations that the library decides on and
  carries out the actions it returns.
- `tests/` — tests of the library on concrete values.
