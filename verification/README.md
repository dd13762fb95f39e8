# hyperterm_video

A terminal video player whose core is verified with Verus.

Video frames are scaled to the terminal's size and drawn as Braille dots,
block characters or ASCII, with optional ANSI colors and Floyd–Steinberg
dithering. Before playback, a menu lets you browse for videos, build a
playlist and change the settings.

## Layout

- `src/` is the verified library. Verus checks every function in it, and the
  contracts state what each function returns or changes, except for values
  that only the clock or another thread decides (the current time, the shared
  pause flag). The library holds the scaling, the
  renderers, color quantization and dithering, the playlist, the sorted
  directory listing, the menu's key handling, command-line parsing and frame
  pacing. Laws that connect several functions (for example, that cycling a
  setting comes back to where it started, or that the listing comes out sorted)
  are public proof functions next to the code they describe.
- `tests/` runs the library on concrete values.
- `app/` is the program around the library: it reads the terminal and the file
  system, decodes video with FFmpeg, runs the threads and draws the screen
  with ratatui. It hands the library plain values and acts on what it returns.

## Keys in the menu

| Key | Browser | Playlist | Settings |
|-----|---------|----------|----------|
| ↑/↓ | move | move | – |
| Enter | open a directory / play a video | play the entry | – |
| a | add the video to the playlist | – | – |
| Delete | – | remove the entry | – |
| c | – | clear the playlist | cycle the color mode |
| r / q / d / h | – | – | render mode / quality / dithering / hardware decoding |
| Tab | next view | next view | next view |
| F1 (h outside settings) | help | help | help (F1) |
| Esc (q outside settings) | quit without playing | quit without playing | quit (Esc) |
