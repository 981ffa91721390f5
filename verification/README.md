# Secure Passage

A desktop app for encrypted chat and file sharing over the Nym mixnet.
Payloads are sealed with AES-256-GCM session keys that peers share
out-of-band (copy / QR).

The core is a Verus-verified library; the desktop front end and the
network service around it are ordinary Rust.

## Layout

- `src/` — the verified library (`secure_passage`):
  - `crypto` — session keys: base64 text form, encrypt / decrypt;
  - `frame` — `[u32 big-endian length][payload]` framing, 8 MiB limit;
  - `protocol` — encrypted frames, chat handshake (`SPCHAT01`), file
    metadata (`SPFILE01`), password challenge, checksum;
  - `transfer` — chunked file transfer (256 KiB chunks, empty end frame);
  - `session` — what a running chat session or file transfer reports
    and does next;
  - `worker` — what the background service does for each command;
  - `service` — the service's state (client, listener, address, chat
    session) and what it reports as it connects, disconnects and opens a
    chat;
  - `ui` — the front end's state and how it reacts to events and clicks;
  - `qr` — the QR image (RGBA pixels) of the shared address and key;
  - `vpn` — the verdict of the optional public-IP check;
  - `encoding` — the text encodings the contracts are written in;
  - `bindings` — the trusted calls into `aes-gcm`, `base64`, `rand`,
    `sha2`, `hex`, `qrcode` and std.
- `tests/` — tests of the library.
- `app/` — the egui front end, the mixnet service (`nym-sdk`, `tokio`),
  file I/O and the HTTP lookup of the VPN check.

Laws proved about the library include: a key's text parses back to the
key; decryption inverts encryption; reading a frame gives back what was
written; a received transfer is the data that was sent; the log stays
bounded.
