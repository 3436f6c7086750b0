# sonibox

Decision logic of a small audio box: figures with RFID tags select a folder, three
buttons control playback and volume, three LEDs show the state, and the box sleeps
after five quiet minutes.

- `src/` is the verified library. Each task of the box is a state machine there: it
  takes the state and what happened (a command, a button level, a card identifier, the
  time) and returns the next state and what to do.
  - `tags`: the known tags and the folder each selects.
  - `player`: playback status, volume, and the actions each command asks for.
  - `buttons`: short and long presses of the three buttons.
  - `leds`: the answer to each LED command and the SOS error pattern.
  - `rfid`: the commands that placing and removing figures send.
  - `sleep`: when the box goes to sleep and wakes up.
- `app/` is the firmware around it: tasks, channels, pins, the audio module and the
  card reader, which carry out what the library decides.
- `tests/` runs the library on concrete inputs.
