# ProfileIT

A static site generator for section-based online business cards: one
`profile.toml` becomes a small multilingual site (`index.html` per language,
`styles.css`, `card.js` and the referenced assets) ready for GitHub Pages,
with a local browser editor and a one-button deploy.

## Layout

- `src/` — the library, verified with Verus: the config schema and its
  validation, the HTML renderer and theme variables, the UI strings and
  messages, what a build writes, the deploy procedure (as a state machine
  that says which git command or file operation comes next), the GitHub
  API decisions, the editor's upload and preview rules, and the plan for
  merging an edited config into `profile.toml` without losing comments.
  `src/laws.rs` states and proves properties that span several functions.
- `app/` — the `profileit` command (`build`, `check`, `init`, `deploy`,
  `edit`): reading and writing files, running git, the OS credential store,
  HTTP calls to GitHub, the axum editor server, the serde form of the config
  file and the toml_edit side of saving.
- `tests/` — tests of the library.

## Running

The pages link to `styles.css` and `card.js`, and the editor serves
`editor.html`, `editor.css` and `editor.js`. The program reads these from a
`static` folder next to its executable, or from the folder named by
`PROFILEIT_STATIC`.

`PROFILEIT_LANG` picks the language of terminal output; otherwise the card's
default language is used. `PROFILEIT_PORT` pins the editor's port, and
`PROFILEIT_NO_BROWSER` keeps it from opening a browser.
