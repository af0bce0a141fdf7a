# snipe_bot

A WeChat official-account bot for a Clash of Clans alliance. Members send
text commands (`指令`, `加盟#tag`, `审核#id`, `fwa#20:00`, …); the bot looks
them up in the alliance's account service, acts for them, and replies.

- `src/` is the library, verified with Verus: reading the commands in a
  message (`command`), the request each command makes and how it is written
  (`account`), the dialog that carries the commands out in turn (`dialog`),
  the wording of the replies (`reply`), the access-token cache decisions
  (`token`), the chat agent's settings (`agent`), configuration (`config`),
  and the text and number operations they rest on (`text`, `number`).
- `app/` is the program around it: the HTTP server, the calls to the
  services, Redis, the chat agent, and the serialized forms of the types.
- `tests/` runs the library on concrete messages and answers.
