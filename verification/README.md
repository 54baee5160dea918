# wechat-cli

A command-line client for WeChat iLink bot accounts: QR code login, saved
accounts, waiting for a context token, and sending text, images and files.

## Layout

- `src/` is the library, written in Verus. It holds every decision the
  program makes, each with a contract that Verus proves:
  - `storage` — the saved accounts and the laws of saving, looking up and
    deleting them;
  - `commands/` — what each command decides: which account or credentials
    to use, what to send, each step of the login and of the wait for a
    context token, and the lines `account list` prints;
  - `wechat/` — the API client's headers, request bodies and status checks,
    and the media upload (encryption, digests, keys, CDN URL);
  - `context` — conversation contexts read from incoming messages;
  - `errors`, `text` — error messages and the text primitives they use.
  Calls into outside crates (AES, MD5, Base64, random numbers, UUIDs, MIME
  guessing, URL building, QR rendering, the clock) stand behind small
  trusted wrappers whose contracts say what the library relies on.
- `app/` is the program around it: argument parsing, the accounts file,
  JSON, HTTP and the terminal.
- `tests/` runs the library on concrete values.
