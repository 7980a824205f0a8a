# edc_ui

The models and view logic of a management console for an Eclipse Dataspace Components
(EDC) connector, its federated catalog and its identity hub, verified with Verus.

- `src/` is the verified library: the asset, dataset, policy, contract and credential
  models; how assets are read from connector properties and searched; the federated
  catalog list and its filter; the shared states of the console; paging, selections,
  progress steppers and watchers; the texts of policies; the validation and the payloads
  of the creation forms; and the laws that tie these together (`src/laws.rs`).
- `tests/` runs the library on concrete values.
- `app/` holds the Yew components and contexts that render the console, talk to the
  connector, the federated catalog and the identity hub, and convert between their types
  and the library's.
