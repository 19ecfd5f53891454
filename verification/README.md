# muzik

A music player that draws a live waveform of what it plays. The verified
library (`src/`) holds the player's logic; `app/` is the window, the audio
device and the signal processing on floating-point samples.

- `src/muzik.rs`: the player's state and its decisions for each button,
  dropped file and batch of incoming samples, with the commands the window
  then carries out on the audio device.
- `src/history.rs`: the fixed-length window of recent samples.
- `src/speed.rs`: the playback speeds and their cycle.
- `src/theme.rs`: the colour themes.
- `src/window.rs`: the analysis window size and the frame schedule.
- `src/args.rs`: the command line.
