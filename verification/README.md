# sensor_panel

Firmware of a touch panel on an i.MX RT board (NuttX) that shows the
number of people, the humidity and the temperature reported by a sensor
server over the serial line.

- `src/` is the verified library (Verus): the serial exchange with the
  server (`protocal`), the decoding of its replies (`backend`), touch
  gesture handling (`touch`), framebuffer geometry and frame pacing
  (`panel`), clock arithmetic (`time`), and the checks of the system's
  status codes (`fs`, `gt911`, `error`, `heap`).
- `app/` is the program around it: the NuttX calls, the window system
  and the loops that perform the library's actions.
- `tests/` runs the library on concrete values.
