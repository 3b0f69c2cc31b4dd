# healthmaster

A service that probes HTTP endpoints on a schedule, prints one line per
check, alerts a Telegram chat when a check fails and stores every result in
ClickHouse.

- `src/` is the verified library (Verus): the configuration types and how a
  loaded configuration is completed (`config`), the retry state machine of a
  single check, the result record, the console line and the per-target loop
  plan (`health_checker`), the MarkdownV2 escaping and the alert text
  (`telegram`), and exact string building (`text`).
- `app/` is the program around it: command line, file and environment
  access, HTTP requests, pauses and timers, the Telegram bot and the
  ClickHouse client.  It performs what the library decides.
- `tests/` exercises the library on concrete values.

Configuration (`config.toml`):

```toml
interval_seconds = 15

[telegram]
chat_id = 42

[[targets]]
name = "google"
url = "https://google.com"
timeout_ms = 3000
interval_seconds = 60   # optional, default 60
retry = 3               # optional, default 3

[clickhouse]            # optional
url = "http://localhost:8123"
user = "default"
password = ""
```

The bot token is read from the `TELEGRAM_BOT_TOKEN` environment variable.
