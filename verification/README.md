# sophon-cli

A provider-agnostic search command line: it queries Brave Search, Exa, or every
provider whose API key the environment holds, and prints normalized text results.

## Layout

- `src/` is the library, written in Verus. Each public function carries a contract
  (`requires` / `ensures`) over mathematical models (`Seq`, `Set`, `Map`, views of
  the data types), and Verus proves the code against it:
  - `domain/`: queries, results, errors and their views;
  - `bootstrap/`: the provider catalog (identity, tokens, environment variables,
    stable order) and the registry of configured providers;
  - `providers/`: for Brave and Exa, the request each search sends and how each
    answer maps onto the shared result model;
  - `app/`: search services over one provider or fanned out over all of them;
  - `cli/`: building the query from arguments, planning a run, rendering text,
    choosing and bounding scraped pages, and the rows stored for a run;
  - `transport/`: how an HTTP status decides between a body and an error;
  - `text.rs`: the string and character helpers the rest is written with.
- `app/` is the program around the library: clap argument parsing, `.env` and
  environment reading, the reqwest HTTP client and the async searches, and
  printing. It also holds page scraping with tokio and SQLite storage of runs,
  which no command-line option reaches yet.
- `tests/` runs the library on concrete values.

Calls into `reqwest` and `chrono` that the library makes stand behind small
trusted wrappers whose contracts are stated in their doc comments.
