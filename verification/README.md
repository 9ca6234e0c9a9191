# lumidox_gui

The state, messages and decisions of the Lumidox II controller's graphical
interface, as a Verus-verified library, with a thin Iced front end.

* `src/` — the verified library. `gui` is the live controller window (its
  state machine, its view and the messages that device outcomes become);
  `launch` and `fallback` start it; `unified_state`, `app_state`,
  `device_state`, the message modules and the handler modules make up the
  application window's state and message loop; `controls`, `display`,
  `error_display`, `factory` and `layout` compute what each panel shows;
  `laws` proves properties that span these operations; `text` holds the
  number and text helpers they share.
* `tests/` — tests of the library on concrete values.
* `app/` — the window drawn with Iced, the device work run on Tokio, and the
  reading of the environment. The device driver is handed in through the
  `DeviceLink` trait.
