# wormhole_rss

A Discord bot that relays RSS feeds. Every ten minutes it fetches each
configured feed, and where the first entry of a feed is one it has not posted
yet, it posts that entry to the feed's channel.

- `src/` is the verified library: reading a channel from the bytes of an RSS
  document (`channel`), the feed table and its configuration (`config`,
  `str_map`), the message and embed made of an entry and the entry's
  identifier (`item`, `text`, `number`), the bot's decisions (`handler`) and
  log records (`logger`).
- `app/` is the program around it: HTTP fetching, the Discord client and its
  events, the periodic loop, reading `~/.secrets` and the environment, and the
  logger.
- `tests/` runs the library on concrete values.
