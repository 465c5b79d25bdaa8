# rdap_redact

Carries out the redactions that an RDAP response lists in its `redacted`
array (RFC 9537): values redacted by empty or partial value are starred,
values redacted by replacement take the value their `replacementPath` names,
and removals are recorded but change nothing. It also reports, for each
`prePath`/`postPath` a response names, what is found there, as the return
codes `Empty1`–`Empty2`, `Replaced1`–`Replaced3` and `Removed1`–`Removed5`.

The library in `src/` is verified with Verus:

- `json`, `bridge`: the document model (`Json`, with its view `JsonV`) and its
  exchange with `serde_json::Value`.
- `text`, `pointer`, `pointer_path`: string helpers, JSON Pointer lookup as
  serde_json walks it, and the JSONPath-to-pointer conversion with its law.
- `outside`: the calls into jsonpath-rust, jsonpath_lib, regex and serde_json.
- `path_safety`: the checks that keep paths handed to jsonpath-rust and
  jsonpath_lib to forms those crates evaluate without panicking.
- `redaction`: reading `redacted` entries and judging their redaction type.
- `substitution`: carrying the redactions out on a response.
- `path_report`: listing a document's members with their paths and checking
  what the redaction paths find.
- `shadow`: the fixed shadow members built for each RDAP object class.
- `laws`: properties that span the functions above.

`app/main.rs` reads the response files and prints the results.
