# huntsman

Threat-intelligence tooling whose logic is verified with Verus: an IOC feed
parser and multi-pattern scanner, a searchable detection catalog, and the
decision logic of an OSINT and local-LLM analysis toolkit for a red-team
framework.

## Layout

- `src/` — the verified library.
  - `text`, `keyed`, `json` — text, association-list and JSON-escaping
    helpers with their specifications.
  - `ioc`, `scanner`, `sweep`, `digest` — the IOC feed (CSV) parser, the
    Aho-Corasick scanner (matching through `aho-corasick`, behind trusted
    wrappers), the per-family tally and exit status of a sweep, and the
    SHA-256 digest (through `sha2`) by which files are matched against hash
    indicators.
  - `catalog`, `catalog_commands`, `event_analysis` — the detection catalog,
    its ranked search and the computations of the `hse` commands; prompts of
    the local model that analyses security events.
  - `framework`, `technique_index`, `scenario_report`, `paths` — records of
    the red-team framework, the technique index and coverage matrix, scenario
    and drill reports, and the directory layout.
  - `llm` — prompts, response cache, metrics, model configurations,
    deployment presets and settings checks of the local-LLM toolkit.
  - `osint` — threat-actor feed, correlation, timelines, attribution helpers,
    detection-rule generation, incident mapping and result caching, and the
    planning tables of adversary-emulation exercises (persistence, campaign
    phases, defensive stacks, infrastructure, personnel, supply chain).
    Ratings that are fractions are held as whole thousandths.
- `tests/` — tests of the library, run against the compiled crate.
- `app/` — the command-line front ends (`ioc-scanner`, `hse`, `rt`): argument
  handling, file I/O, JSON (de)serialisation and the float-valued scoring that
  the library leaves out.

Maps keyed by text (the hash-indicator index, the OSINT result cache, the
threat-actor feed) are vectors with an invariant that no key occurs twice.
Verus's specification of `HashMap` lets lookups be reasoned about only for
keys whose hashing and equality it knows, such as integers; with `String`
keys a lookup would prove nothing, so the vector form is what lets their
contracts state what a lookup returns.
