# nyon

The decision logic of the NYON client, written in Verus and proved against
its contracts: the Classic session (speed, selection, guidance, settings,
focus and the fixed-step clock), keyboard routing, the scenario editor's
confirmation flow, the product shell and its Workshop Library (slot
requests, exact-catalog opens, exports, portable handoff and catalog
import), durable exit, GPU startup and surface decisions, graphics quality
fallback, render upload planning, the advisory controller, WGSL validation
through naga, and the bitmap font.

- `src/` is the verified library. Each module states its model with spec
  functions and views; the laws it keeps are public proof functions beside
  the operations they speak of.
- `tests/` exercises the library on concrete values.
- `app/` is the unverified platform side: error types with their messages,
  the graphics-backend adapter, the driver that performs storage and
  Workshop-core requests for the Library, and the floating-point advisory
  scoring.
