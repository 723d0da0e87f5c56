# downloader_bot

A Telegram bot that downloads the files sent to it: photos, documents, videos, animations and
video notes. Each chat has a queue, shown in a status message that stays below the latest message
of the user. Files of up to 20 MB are downloaded from Telegram; with a local Bot API server, files
of up to 150 MB are moved from its folder at once, and files of up to 2000 MB after a confirmation.

`src/` decides, `app/` acts. The library takes plain values and returns plain values: what an event
does to the queue, which messages to send, which steps a download takes. Every function of it
carries a contract that [Verus](https://github.com/verus-lang/verus) proves. The program around it
talks to Telegram, to the disk and to the clock.

| module | what it decides |
| --- | --- |
| `startup` | which API server to talk to, and whether to register a webhook |
| `intake` | what to do with a message that brings a file |
| `callback` | what to do when a button is pressed |
| `chats` | which chats have a queue |
| `actor`, `queue` | what an event does to the queue of a chat, and when to render its status |
| `status` | the text and the buttons of the status message |
| `download`, `files` | the steps of a download, and where the file is stored |
| `link` | the link to a message |
| `size`, `text`, `stats` | sizes and numbers as text, totals of a chat |
| `tasks` | the values that the modules exchange |
| `laws` | what holds of the bot as a whole |

Three functions are trusted, each behind a wrapper whose contract says what it returns:
`teloxide::types::Message::url_of` in `link`, `url::Url::parse` in `startup`, and
`std::path::Path::extension` in `files`.

`takecell`, which `teloxide` depends on, is held at 0.1.1: its next version needs Rust 1.96.
