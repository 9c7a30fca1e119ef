# evolish

The core of a desktop translation and learning application, written in Verus. The
functions in `src/` are verified against their contracts, with these exceptions:

- Eleven small trusted wrappers around `std`, `url`, `uuid` and `unicode-segmentation`
  (`#[verifier::external_body]`, in `text.rs`, `segmentation.rs`, `domain/provider.rs` and
  `domain/translation.rs`), and the declaration of `url::Url` in `domain/provider.rs`.
  Verus believes their contracts and does not prove them; the named results of these
  calls are uninterpreted spec functions beside them.
- Two constructors of field-less types (`AiProviderRegistry::new`, `LinguaDetector::new`)
  have no `ensures`: their type has a single value.

- `src/domain/`: the language catalog, query intents, identifiers, result shapes and
  the attempt state machine, provider profiles and translation modes.
- `src/application/translation/`: text normalization, intent classification, language
  direction, prompt compilation, result validation, long-text chunk planning and its
  execution bookkeeping, request preparation, and the session supervisor as a state
  machine whose laws stand in `supervisor.rs`.
- `src/infrastructure/`: what provider replies mean, the provider registry, credential
  metadata, script-based language detection and the decisions behind storage rows.
- `src/json.rs`, `src/text.rs`, `src/entries.rs`, `src/segmentation.rs`: JSON values,
  text helpers, keyed entry lists and Unicode segmentation.
- `app/`: the runtime around the library: HTTP adapters, the async supervisor, chunk
  execution, SQLite storage, platform credentials, the statistical language model and
  serialized forms of the library's types.
- `tests/`: executable tests of the library.
