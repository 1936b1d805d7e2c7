# dynamic_entry_bot

A Discord bot that plays a user's music in a voice channel: `~join <id>`
joins the voice channel with that id, fetches the music registered for the
user who asked, and plays it. Its decisions are verified by Verus: which
channel to join, which music belongs to which user, and the order of the
steps; the download and the playing itself are done by the Discord client
library around it.

- `src/` is the verified library: the table of users and their music
  (`users`), the logged-in and logged-out bot (`dynamic_bot`), the two
  forms of the link to the client thread (`internal_api`, `api`, over the
  channel ends of `channel`), the decision of when to join a voice channel
  (`discord_state`), the `~join` and `~leave` commands (`commands`), and the
  scan for the game's score counter (`pid`, `score`).
- `app/` is the program around it: the Discord and serenity clients, the
  threads, the configuration file and the reads of another process's
  memory.
- `tests/` runs the library on concrete values.

The configuration `config.yml` holds the bot token and a map from user id
to music:

```yaml
token: sdkfjdkjfdkfjd
users:
  "12323232323": "youtube link"
```
