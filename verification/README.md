# rjremote

The verified core of RajbariIT Remote Lite, a LAN remote-desktop companion.

- `src/` is the library, written in Verus. Each public function carries a
  contract, and the protocol properties are stated as `law_*` proof functions:
  - `discovery`: the mDNS record a host announces, and how a scan turns resolved
    services into device records;
  - `input`: mouse and keyboard requests turned into the exact sequence of
    synthetic input operations (modifiers are released in reverse order);
  - `screen`: hosting control, BGRA to RGBA conversion, JPEG and Base64 encoding
    of captures, and the length-prefixed frame format;
  - `security`: six-digit session PINs valid for ten minutes;
  - `transfer`: the JSON metadata line, chunked sending and receiving, and the
    receive server's control;
  - `text`: decimal rendering shared by the messages.
- `app/` holds the commands the front end invokes: it performs the I/O (mDNS
  sockets, screen capture, synthetic input, TCP, files, clocks) and asks the
  library what to do.
- `tests/` exercises the library on concrete values.
