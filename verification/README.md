# hc_lutron

Bridges Lutron RadioRA2 devices into HomeCore via the Lutron Integration Protocol (LIP) over
telnet. Everything that the bridge decides is in a library that Verus verifies; the program around
it talks to the repeater and to HomeCore.

## Layout

- `src/` is the verified library.
  - `bridge` takes one event at a time and answers what to do and how to go on.
  - `devices`, `command`, `patch`, `protocol` translate states and commands.
  - `wire` reads and writes the lines of the protocol.
  - `startup`, `published` decide what is registered with HomeCore and what is removed.
  - `config`, `text`, `number`, `json` hold the settings and the plain values.
  - `laws` and `timers` state what holds over several events.
- `tests/` runs the library.
- `app/` is the program: sockets, timers, files, the configuration format, and the arithmetic on
  levels, which is floating point.

## Device types

| Kind | HomeCore device type | Notes |
|---|---|---|
| `dimmer` | `light` | Brightness 0-100, configurable fade time |
| `switch` | `switch` | On or off |
| `shade` | `cover` | Position 0-100, raise, lower, stop |
| `keypad` | `button` | Button events; buttons can be pressed; LED states are published and can be set |
| `pico` | `button` | Button events |
| `occupancy_group` | `occupancy_sensor` | Occupied or vacant |
| `vcrx` | `button` | Button events; buttons can be pressed and their LEDs set |

The contact closure inputs of a `vcrx` are configured as `ccis`, so that they are not taken for
buttons. Their reports are not published.

## Attributes

Button events are published as `button_{component}`: `press`, `release`, `hold`, `double_click`.

A button of a keypad or receiver is pressed and, after a tenth of a second, released by
`{"press_button": {"button": 3}}`. Its LED is set by `{"set_led": {"button": 3, "state": 1}}`. A
payload with both sets the LED only.

A report of a keypad's LED is published as the integer `led_{button}`; a component that is no
button's LED is published as `led_component_{component}`.

A scene is a phantom button of the main repeater. `{"activate": true}` presses and releases it. Its
LED stands a hundred components past the button; a report of its state is published under the scene
as the integer `led`.

## Reconnection

A lost connection is made anew after `reconnect_delay_secs`. The wait doubles, up to a minute, while
attempts fail, and a connection that was made brings it back to `reconnect_delay_secs`.
