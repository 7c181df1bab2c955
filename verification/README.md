# atra

The decision logic of the atra web crawler as a library whose functions carry
contracts proved by Verus, and a small command line program around it.

## Layout

- `src/` — the library; its functions are verified, except the small trusted wrappers
  around the calls into outside crates, whose contracts are assumed.
  - `depth`, `depth_order`, `url`: the depth of an url relative to its seed, its
    arithmetic and its order; an url together with its depth.
  - `domain_map`, `budget`, `cookies`: values per host over a default; the crawl
    budget and which urls it admits.
  - `blacklist`, `blacklist_manager`: blacklists of regular expressions, the entries
    behind them, patches between versions and what is still to be written to the
    blacklist file.
  - `config`, `instruction`, `run_errors`: the configuration, the instruction a run
    is given, the directory and crawl ids of a session, and the exit codes.
  - `session`, `crawl`, `crawl_task`, `polling`: the decisions of a whole run, of a
    crawl worker, of a crawl task (around its queue and on one url), and of a poll of
    the queue, as state machines whose caller performs the actions and hands back the
    answers; how the links of a page are handled.
  - `fetching`, `data`, `decoding`, `stored`: how a response is downloaded and
    redirected, the data of a page and its decoding, and how a stored page is read back.
  - `paging`, `export`: paging through stored pages, and the names of the files they
    are exported to.
- `tests/` — tests of the library.
- `app/` — the program: arguments, configuration files in json, the blacklist file
  and the directory of a run.
