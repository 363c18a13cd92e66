# ce-iam-core-wasm

The browser half of a secrets vault and of capability verification, as a library whose
contracts are proved by Verus.

- `src/` is the verified library.
  - `vault` and `wasm`: the vault's string-in, string-out surface (`VaultCore`), and the
    same surface with errors as thrown texts (`WasmVault`).
  - `snapshot`: snapshots of the vault's store, exported and loaded.
  - `records`: what the vault tells of devices, secrets and grants, as JSON.
  - `capability`: the check whether a capability chain authorizes a request.
  - `node_id`: node ids and their text form.
  - `json`, `error`, `executor`: JSON values, errors, and the waker that does nothing.
  - `laws`, `check_laws` and `id_laws`: what holds of the library as a whole.
- `tests/` runs the library on concrete values, with a vault that keeps its records in
  the clear.
- `app/` binds the library to the secrets and capability crates and exports it to
  JavaScript.

The vault's own operations (its cryptography, its store) and the authorization rules
belong to other crates. The library takes them as functions: a contract says what such a
function is called with, and what is made of each thing that it can return.

A browser tab loads the entries of its namespace from the durable store, hands them over
as a JSON snapshot (`loadSnapshot`), runs operations over the store in memory, reads the
snapshot back (`snapshot`), and persists the difference.
