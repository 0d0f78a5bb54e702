# sdr_remote

A remote-control system for software-defined radios: a server next to the
radio software streams audio, spectrum and radio state to clients over UDP.

`src/` is the library, verified with Verus:

- the wire protocol (`header`, `audio`, `control`, `heartbeat`, `spectrum`,
  `spot`, `equipment`, `yaesu`, `packet`): every packet's encoder and decoder
  are specified, and decoding what was encoded gives the packet back;
- the server's settings file (`settings`, `settings_file`, `settings_save`,
  `settings_laws`, `settings_roundtrip`): saving and loading, and the law that
  settings read back as they were saved;
- the virtual receiver's sizing and rate rules (`vrx`), WAV headers (`wav`),
  audio routing and the bookkeeping of the audio loops (`routing`,
  `audio_flow`), server discovery (`discovery`) and the status panel's texts
  and choices (`panel`, `tuner_panel`).

`app/` holds what the library does not: file and network I/O, the
floating-point signal processing (FFT channelizer, resampling) and
process-wide state. The password and one-time secret are stored in the
settings file as given; the library applies no obfuscation to them.
