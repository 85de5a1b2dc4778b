# FrankClaw

A personal assistant gateway: it connects messaging channels (Discord, Slack,
WhatsApp, the web) to language models, and lets clients and webhooks talk to
them too. The rules of the gateway are a library that is verified with
[Verus](https://github.com/verus-lang/verus); the program around it does the
input and output.

## Layout

- `src/` is the verified library. Every function states in its contract what it
  returns or changes.
  - `types.rs`, `text.rs`, `text_map.rs`, `json.rs`, `time.rs`, `media.rs`,
    `signature.rs`, `error.rs`, `message.rs`: identifiers, texts, JSON values,
    moments, signatures, errors and messages.
  - `config.rs`: the configuration and its rules.
  - `channels.rs`, `channels/`: what each platform's messages look like, and the
    protocols of their sockets.
  - `gateway/`: what becomes of a message, how answers are split and sent,
    requests of clients, webhooks, canvases, limits, health, reloading, tunnels,
    sessions of other agents, and the completion interface.
  - `cli/`: the audit, the checks, the setup, the interactive chat, tables and
    messages of the command line.
- `app/` is the program: the command line, the server, the connections to the
  platforms, files, sockets and clocks.
- `tests/` runs the library.

## How decisions and effects are parted

Where a decision depends on something outside (an answer of a platform, the
clock, the environment, the store), the library takes it as an argument: a
function of state and event gives the next state and what to do, and the program
does it. Public proof functions named `law_*` state what holds across functions,
such as that a stored reply reads back, or that pieces of a message fit and lose
nothing but white space.

A few functions call other crates (HMAC-SHA256, UUIDs, dates, base64, URLs, the
notation of JSON, a concurrent map). Their contracts are not proved; each says above it what it
takes from the crate.
