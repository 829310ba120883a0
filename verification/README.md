# twitchchat

Parsing and encoding of Twitch's IRC-based chat, with the decisions of a chat client's main
loop (idle detection, rate limits, waiting for messages, reconnecting), verified with Verus.

* `src/` — the verified library: the IRC parser (`irc`), typed
  messages (`messages`), commands and their encodings (`commands`), decoders and encoders of
  lines (`decoder`, `encoder`, `writer`), the dispatcher (`dispatcher`) and the main loop's
  state machines (`runner`).
* `tests/` — tests of the library on concrete values.
* `app/` — the I/O around the library: readers and writers, the idle-detection thread and the
  asynchronous driver of the main loop.
