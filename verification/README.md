# sua-sdk

Transport-neutral contracts for the Software Use ecosystem, written in Verus.

The library (`src/`) holds the records that agents, runtimes and providers
exchange, and proves the rules they carry:

- `id`: validated capability, provider, invocation, plugin, service, event,
  permission and protocol identifiers (one ASCII grammar; only invocation
  identifiers may start with a digit).
- `text`: bounded, trimmed, control-free metadata text and the character
  classes it is defined by.
- `error`: stable error codes and bounded SDK errors.
- `version`: semantic versions as plain parts; `semver::VersionReq` is carried.
- `json`: a JSON value model with its mathematical view, the form serde_json
  gives objects (keys ascending, none twice), and the serde_json encoding used
  to bound permission constraints.
- `invocation`, `provider`: invocation lifecycle evidence, runtime events,
  discovery records and the cooperative cancellation signal.
- `plugin`: declarative plugin manifests, their validation, permission
  constraint bounds and execution-model decoding, with proofs that validation
  accepts exactly the manifests and constraints that follow the stated rules.

`app/` gives the records their serde wire schemas, display text and the async
`InvocationPort` / `CapabilityProvider` ports; every wire decoder goes through
the library's validating constructors.
