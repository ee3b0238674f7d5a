# sigbot

A bot for the Signal messenger. It runs as a linked device of an account, obeys the commands that
the account's owner writes (`/bot ping`, `/bot enable`, ...), and answers voice messages with their
transcripts.

The library under `src/` holds every decision, as functions that Verus verifies:

- `content`: messages, with what the bot does not look into kept in encoded form
- `bot`: the commands, the settings of each conversation and how they are stored, and what the bot
  does with a message; `bot::laws` holds what is proved of the whole
- `debug`: a handler that logs messages without their secrets
- `handler`: what a handler can ask for and what it is told
- `signal`: what handlers send, the two tasks between the network and the handlers, the dispatching
  of messages, and how it is all put together
- `codec`, `paths`, `clock`, `quick_hash`, `text`: what these rest on

Handlers and tasks are state machines. A step takes a stage and an event, and gives the next stage
and an action. The program under `app/` performs the actions: it talks to the network, to the
database and to the speech recognition.

What is not proved but taken as given stands in functions marked `external_body` and in
`assume_specification` items, each with a comment that says what it claims of the function that it
calls.
