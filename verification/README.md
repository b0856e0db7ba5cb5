# notion_cli

An agent-first Notion CLI and MCP server. The library in `src/` holds the
decisions — identifier grammar, request bodies and paths, error mapping
and hints, retry and body-size policy, pagination, the audit log, the
token chain and the response cache — each with a contract proved by
Verus. `app/` is the program around it: argument parsing (clap), the
HTTP transport (reqwest, governor, tokio), the MCP server (rmcp), JSON
on the wire, and printing.

Layout of `src/`:

- `validation`, `error` — Notion identifiers: 32 hex digits, dashed
  UUIDs or Notion URLs, stored in one canonical spelling.
- `api` — request bodies and paths per endpoint, the transport's
  decisions (`client`), error classification and hints (`error`),
  client-side collection of paginated lists (`pagination`).
- `cli` — command arguments and the requests they resolve to.
- `mcp` — tool parameters, the tools' checks (`handlers`), the audit log.
- `token_provider` — the env → file → keychain → exec chain, its order
  overridable with `NOTION_CLI_TOKEN_CHAIN` (e.g. `keychain,env`).
- `cache` — a TTL cache on the `lru` crate.
- `output` — the untrusted-source envelope around Notion payloads
  (skipped with `--raw`) and the frames of a streamed listing.
- `text`, `types`, `config`, `observability` — shared pieces.
- `foreign` — the outside types and calls the library relies on, with
  the contracts that are trusted rather than proved.

The tests in `tests/` exercise the library with the real outside
crates linked.
