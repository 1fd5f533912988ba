# atlas_backend

Backend of the Atlas family-office platform: accounts and sessions, legal
entities with their KYC data, sponsors, funds and portfolio companies,
uploaded documents, the field-by-field review of extracted data, and the AI
copilot conversation.

- `src/` is the library, verified with Verus: every request rule, filter,
  error mapping and record transformation, with its contract and the laws
  that relate the operations (see the `lemma_*` proof functions).
- `app/` is the HTTP server (actix-web) and the PostgREST storage client
  (reqwest) around it: it reads requests and storage answers, hands plain
  values to the library, and writes what the library decides.
- `tests/` exercises the library on concrete values.
