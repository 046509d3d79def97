# epd4in2_v2

A verified driver for v2 of the 4.2" Waveshare e-paper display.

The library in `src/` decides what is sent to the display; every function is proved against its
contract with Verus. It does no I/O. Each operation of `Epd4In2V2` is a `Step`, which names the
actions to perform one by one and takes the result of each.

| module     | content                                                                 |
|------------|-------------------------------------------------------------------------|
| `command`  | the controller's commands and their registers                           |
| `mode`     | refresh modes and the border                                            |
| `geometry` | points and rectangles, and how they are encoded                         |
| `buffer`   | black and white and grayscale images                                    |
| `exchange` | operations as a series of actions, and what happens when an action fails |
| `script`   | the commands that the operations are made of                            |
| `operation` | the operations as mathematical values                                  |
| `driver`   | the driver and its states                                               |
| `laws`     | what holds of the display over several operations                       |

`app/` drives asynchronous hardware with `embedded-hal-async`. Its `main` goes through the refresh
modes, with the display wired to the pins of a Raspberry Pi Pico. The library needs std and a heap,
which a bare microcontroller does not offer. `tests/` runs the library against a log of its actions.
