# nodetemplatetoken

A property-token ledger for a Substrate-style chain. Admins register properties; each
property's price becomes its tokens, held first by its primary owner. Accounts buy tokens
from the primary owner and sell them back, paying a commission to the platform on each side.

Layout:

- `src/types.rs` — accounts, property identifiers, origins, errors, events, transfers.
- `src/table.rs` — the keyed tables that hold the pallet's storage.
- `src/hashing.rs` — the property identifier, the chain's BLAKE2b-256 hash of a property.
- `src/model.rs` — the storage as mathematical maps, and what each call makes of it.
- `src/pallet.rs` — the calls, verified against the model; calls that move funds take the
  free balances they need and return the transfers to make.
- `src/laws.rs` — what every call keeps (among it, that trades neither create nor destroy
  tokens), and how a sale undoes a purchase.
- `app/lib.rs` — reads balances from a chain currency and makes the returned transfers.
- `tests/` — scenarios on concrete values.
