# selfllama

The logic of a local-AI installer and launcher (Ollama, GPU acceleration,
Open WebUI), as a library verified with Verus, with a thin command-line
program around it.

- `src/` — the verified library:
  - `text` — string and line handling the parsers share;
  - `detect` — CPU, distribution, RAM and GPU read from command output;
  - `install` — the install plans: tier and models, GPU drivers and the
    Ollama service drop-in, Ollama itself, Open WebUI;
  - `progress` — splitting terminal output into display lines;
  - `privileged` — the single-elevation privileged phase: worker arguments,
    step runner, step-line framing, package commands, GPU step decisions;
  - `gui` — what the installer window shows and how an install ends;
  - `launcher` — model listing, pull progress, Open WebUI service and LAN
    settings.
- `tests/` — tests of the library.
- `app/` — the program: process spawning, `pkexec`, file and network I/O,
  JSON encoding, and the command line.
