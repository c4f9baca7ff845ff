# arhivarch_downloader

Downloads threads from arhivach and saves them for offline reading: the
thread page as static HTML, and optionally the attached files and their
thumbnails.

The library under `src/` is verified with Verus. Each part states its
behaviour in `requires`/`ensures` contracts over mathematical models
(`Seq<char>` for text, spec functions for the page layout and the reading
rules) and proves it.

- `text`: character-level helpers (splitting, joining, trimming, replacing,
  decimal numbers) and their laws.
- `post`, `file`, `dom`: reading a thread page. `dom` is the thin layer over
  the `scraper` HTML parser, whose findings at each position of the page
  tree are named; `post` reads the page over those names and turns what it
  reads into posts by rules stated exactly.
- `render`, `export`: HTML of posts, thread pages and the index page.
- `backend`, `http`, `config`, `events`, `args`: the multi-thread scraper,
  as state machines (the scrape of a thread, the fetch of its page with
  retries, the run over all threads) that decide every step and leave the
  network, the file system and the clock to their driver.
- `downloader`: the single-thread downloader (settings, events, retrying
  downloads, export, and the run as a state machine).
- `cli`, `tui`: what the command line and the terminal interface decide:
  argument reading, printed texts, the form and its keys and clicks.
- `error`, `outside`: the error type and the outside types it carries.

`app/` holds the programs around the library: the drivers that perform the
machines' actions, the terminal drawing and the argument sources. `tests/`
exercises the library on concrete values.
