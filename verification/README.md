# welosa

The verified core of WelosaII, a real-time LED animation tool that maps
generative visuals onto an LED grid and streams them to WLED controllers
over DDP.

- `src/` is the library, checked by Verus: colour palettes and colour
  parameters, the LED receiver grid (cell layout in row or column order,
  cell lookup, LED byte buffer, row and column dragging), parameter
  holders, preset bookkeeping (file names, save locations, listings),
  the paths below the documents folder, and the small text formats
  (cell labels, the clock display).
- `tests/` exercises the library.
- `app/` is the program around it: the floating-point geometry of the
  grid on screen, modulation signals, the clock, settings and preset
  files, and the DDP connection.
