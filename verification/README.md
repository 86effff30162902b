# onemini

A terminal coding assistant's core, written in Verus: the rules that decide
what a tool call may do, the text the assistant shows, the parsers of the
streamed model answer, hooks, slash commands, skills and settings. The
functions under `src/` carry contracts that Verus proves; the calls into
outside crates stand behind trusted items (see below). Terminal output is
stated exactly without colours; with colours, most of it is stated by what it
shows once its escape sequences are removed (`ui::terminal::shows`), since
whether colour codes are written depends on the environment; the words a
panel or status line is made of are also stated to stand whole in it
(`ui::terminal::stands_whole`). Rendered
Markdown is stated that way for input whose text holds no escape character
and whose table cells hold unstyled text (`ui::markdown::md_simple`): a table
pads its cells by their length in characters, so bold, italic or code text in
a cell, coloured, is padded by a length that counts its escape codes. The
diff block (`ui::diff_block`) is stated without colours only.

Layout:

- `src/permissions/`: permission modes, rules, the hard deny list, the
  classifier of the `auto` mode and the laws they obey (`laws.rs`).
- `src/llm.rs`: client settings and the decoder of the streamed chat answer
  (server-sent events, text and tool-call deltas, usage, the final message).
- `src/agent/`: the task state, the decisions around a tool call, the system
  prompt and delegated read-only sub-tasks.
- `src/tools/`: path resolution without the file system, the file tools'
  text work (edit, read, grep, glob) and the bash tool's result handling.
- `src/skills/`: the skill registry, front matter, automatic matching, the
  catalogue, installation and the document skills' bootstrap.
- `src/ui/`: themes, Markdown rendering, tables, panels, the streamed reply's
  layout and the cleaning of model output.
- `src/hooks.rs`, `src/slash.rs`, `src/repl.rs`, `src/config.rs`,
  `src/cli.rs`, `src/update.rs`, `src/install.rs`, `src/sandbox.rs`,
  `src/session*.rs`, `src/mcp.rs`, `src/git.rs`, `src/compress.rs`: the
  remaining decisions of the program, each beside the I/O that `app/` does.
- `app/`: the command line, files, processes and terminal output.
- `tests/`: tests on concrete values.

Calls into `regex`, `glob`, `unicode-width`, `colored`, `pulldown-cmark`,
`semver`, `serde_json`, `pbkdf2`, `aes-gcm`, `getrandom` and `reqwest` (its
URL parser, for the addresses the `fetch` tool may reach) stand behind
small trusted wrappers whose contracts state what those crates promise.
