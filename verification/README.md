# oxidebot-example

Handlers for a chat bot built on the `oxidebot` framework, with their
decisions verified by Verus.

- `src/` is the verified library: the message model and its text tests
  (`message`, `text`), the handlers' decisions (`echo`, `filter`,
  `qq_special`, `schedule`, `set_message_reaction`), and the two dialogues
  as state machines (`interaction`, `wait`) that say what to send and what
  to wait for next (`dialogue`).
- `app/` is the bot itself: it connects a OneBot v11 bot, converts the
  framework's messages to the library's, and carries out what the library
  decides (sending, waiting, SQLite statements, the timer).
- `tests/` runs the library on concrete messages.
