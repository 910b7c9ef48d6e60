# business

Business logic of a local-first sales desktop (second-hand marketplace
automation, mail and knowledge base), written in Verus: the code in `src/`
is verified, and its functions state what they do in `requires` and
`ensures` (the services' plain forwarders to storage traits state nothing,
as the store decides their result).

- `src/auto_reply`: message classification, dedup window, filters, keyword
  rules, default replies, reply logs and the reply pipeline (a step machine
  that asks its caller for an AI reply when one is needed).
- `src/delivery`: delivery-block rules and their engine, card selection,
  content generation and the delivery flow (a step machine driven by the
  caller).
- `src/promotion`: product and publish rules, materials and their batch upsert.
- `src/blacklist`, `src/card`, `src/feedback`, `src/notification`,
  `src/monitor`: services over storage traits implemented by the application.
- `src/mail`: IMAP inbound persistence and open tracking.
- `src/knowledge`: document deletion, the import flow and OCR result reading.
- `src/chat`, `src/crawler`: UI event topics and chat digests.
- `src/text.rs`, `src/json.rs`, `src/seqs.rs`: string, JSON and sequence
  helpers with their specifications.
- `tests/`: tests on concrete values.
- `app/`: the I/O around the library (async drivers, HTTP, files, PDFium and
  Tesseract, serde copies of the data types).

The in-memory dedup store keeps its marks in a vector holding each key once:
its key is a pair of strings, and vstd's `HashMap` specifications give no
lookup guarantee for such keys (a map keyed by an integer was not tried, as
the key has no integer form).

Laws that span several functions are public proof functions named
`lemma_*` beside the functions they speak of.
