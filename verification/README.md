# iamlint

A static linter for AWS IAM policy documents, with its logic proved correct in
Verus. It looks at the JSON alone: no AWS account, credentials or API calls.

    iamlint policy.json          # human-readable report
    iamlint policy.json --json   # findings as a JSON array

The exit status is 1 if a finding is high or critical.

## Rules

- `wildcard-action`: `Action: "*"`. Critical if the resource is `"*"` or omitted,
  high if it is scoped.
- `unconstrained-resource` (medium): resource `"*"` or omitted, unless every
  action of the statement is a read-only one (`Describe`, `Get`, `List`, ...).
- `sensitive-action-no-condition` (high): an action that overlaps an entry of
  `SENSITIVE_ACTIONS`, without a condition.
- `wildcard-principal` (critical): `Principal: "*"`, or an object with a member
  that is or lists `"*"`.
- `notaction-with-allow`, `notresource-with-allow` (high): what is not listed is
  granted.

Statements whose effect is not `Allow` are never flagged.

## Layout

- `src/json.rs`: JSON values, read with `serde_json`.
- `src/policy.rs`: statements in normal form, and reading them from JSON.
- `src/glob.rs`: case-insensitive matching with `*` and `?`.
- `src/findings.rs`, `src/rules.rs`: findings, severities and the rules.
- `src/report.rs`: the human-readable report.
- `src/laws.rs`: properties of the linter as a whole.
- `src/text.rs`: text helpers.
- `app/`: the command line.

What is taken on trust is marked `external_body` or `assume_specification`: the
JSON parser and the shape of its values (`src/json.rs`), and lowercase mapping,
splitting at a delimiter and `Debug` quoting of strings (`src/text.rs`).
