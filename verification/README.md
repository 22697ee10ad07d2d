# safe_npx

An execution gate for `npx` / `npm exec`, written in Verus: it parses the
requested command, resolves the exact package version, verifies the root
tarball's integrity, reads its metadata without running any package code,
and reports evidence and a policy decision for humans (text) and agents
(JSON). Unsupported or unverifiable command shapes are refused.

## Layout

- `src/` — the verified library. Its functions carry contracts over
  mathematical models (sequences, integers and a view of each type) and is
  proved by Verus. The main pieces:
  - `parser`, `cli`, `contracts` — command shapes, exact package specs,
    command intent.
  - `registry`, `registry_precedence`, `download`, `integrity`, `resolver` —
    registry metadata, registry choice, tarball download and SHA-512
    integrity verification; network access goes through transport traits
    that the caller implements.
  - `extraction`, `package_metadata`, `json` — reading `package.json` out of a
    verified tarball: bins, lifecycle scripts, dependency declarations,
    optional evidence; archive paths are normalized or refused.
  - `closure`, `closure_blockers`, `bin_selection`, `executable_identity`,
    `direct_execution`, `m2_report` — execution-closure evidence and refusal.
  - `policy`, `policy_time` — the policy decision, threshold findings and
    exit codes.
  - `inspect_model`, `authority_context`, `redaction` — the shared inspect
    model, the redacted authority context and report redaction.
  - `report`, `report_inspect`, `report_optional_evidence`, `report_json`,
    `inspect_json`, `inspect_json_schema`, `inspect_receipt`, `json_out`,
    `json_sort` — human and JSON rendering.
  - `canary`, `fixtures`, `m2_fixtures`, `race_matrix`,
    `delegation_feasibility`, `inspect_latency` — bundled fixture manifests
    and the checks run over them.
  - Laws of the library are public proof functions named `law_*`.
- `tests/` — executable tests of the library.
- `app/` — the command-line program: argument parsing, HTTP transports,
  the process environment, file-system work and process spawning.
