# cosmic_power_monitor

A COSMIC panel applet that shows the battery's power draw, with its display and
control logic written in Verus and proved against its contracts.

- `src/` is the verified library: the display modes and their labels
  (`config`), decimal numerals (`text`), remaining-time texts (`duration`), the
  combination of several batteries' statuses and the choice of batteries and of
  time estimates (`status`), and the applet's state, texts and event handling
  (`monitor`), with the laws that tie them together.
- `app/` is the desktop program around it: the toolkit, sysfs reads, the
  floating-point readings and their formatting, drawing, and the poll loop.
- `tests/` runs the library on concrete values.
