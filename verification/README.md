# rsbot

Control software for a differential-drive robot on an MCU, split in two:

- `src/` is the verified library. It holds the data model, generic over the
  scalar `S` that carries physical quantities, and every decision that does not
  depend on floating-point arithmetic: fault codes and their wire encoding,
  the safety monitor of a chassis (emergency stop, fault lockout, command
  watchdog) and the safe chassis that puts it in front of an inner chassis
  (with a pluggable acceleration limiter), the navigation mode machine, the decision state of the control
  loop, encoder tick accounting, the host protocol messages and the transport
  numbering. Each public function states its result exactly; the laws of the
  library are public proof functions beside the code they speak of.
- `app/` is the demo program and everything that computes in `f32`: angle
  math, kinematics, the acceleration limiter, wheel-speed control, odometry
  integration and waypoint steering, plus the mock board. It instantiates the
  library with `S = f32` and calls into it for each decision.

`tests/` exercises the library with concrete values.
