# awstgbot

A Telegram bot that reports on AWS Lightsail instances to its maintainer:
their network traffic of the current month (`/network`), their details
(`/info`), the output of a command line run on the bot's machine (`/shell`),
and, for anybody, their own Telegram id (`/userid`).

- `src/` is the verified library: what the bot decides for each
  command and sender (`bot`), the texts it replies with, escaped for
  MarkdownV2 (`bot`, `text`), the month period and metric queries it asks the
  service for (`period`, `metrics`), the messages of failed service calls
  (`error`), and the routing of requests behind a Lambda function URL
  (`lambda`).
- `app/` is the program around it: the Telegram dispatcher, the Lightsail
  client, process spawning, and the Lambda runtime.
- `tests/` runs the library on concrete values.
