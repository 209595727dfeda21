# real_estate_bot

A Telegram bot that helps buyers find real estate, with an admin HTTP API for
managing listings and viewing requests.

The crate has two parts.

- `src/` is a library verified with Verus. It holds the bot's decisions and
  rules: the registration dialogue (states, questions, answers), the search
  profile and the walk through search results, the callback protocol of the
  inline buttons and the keyboards that use it, the texts of all messages with
  HTML escaping and price formatting, the admin API's validation and answers,
  and the reading of the configuration from the environment. Contracts state
  what each function returns; proof functions state the laws that tie them
  together (button data reads back as what it was made from, dialogue answers
  follow the registration order, a status name reads back as its status,
  escaped text holds no markup, a shown price is its decimal text grouped).
- `app/` is the program around it: environment, PostgreSQL (sqlx), Telegram
  (teloxide), the HTTP server (axum) and logging.

Modules of the library:

| module      | contents |
|-------------|----------|
| `text`      | characters of strings, trimming, prefixes, ASCII case |
| `numbers`   | reading and writing integers, price grouping |
| `html`      | escaping text for HTML messages |
| `ids`       | UUID text form, random ids, the clock |
| `models`    | commands, statuses, dialogue states, records |
| `config`    | the configuration and its checks |
| `callbacks` | the data of inline buttons |
| `keyboards` | reply and inline keyboards as data |
| `search`    | search preferences, search parameters, next result |
| `dialogue`  | the conversation's decisions and fixed messages |
| `cards`     | property cards, profile, help, manager notice |
| `admin`     | validation and answers of the admin API |

Dependencies: besides the crates the program calls, `Cargo.toml` holds
`takecell` below 0.1.2. Nothing here calls it; teloxide depends on it, and its
0.1.2 release raises the minimum Rust version to 1.96.
`url` parses photo addresses, which decides whether a card goes out under a
photo.
