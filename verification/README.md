# rotosports_config

Configuration logic of the Rotosports contracts, verified with Verus.

- `src/asset.rs`: asset and pair descriptions.
- `src/pair_roto_xroto.rs`: turning the ROTO-xROTO pool's instantiation parameters
  into validated addresses.
- `src/generator.rs`: the generator configuration and its migrations from v2.0.0,
  v2.1.0 and v2.2.0, with the laws that relate them.
- `src/pair_concentrated.rs`: the concentrated pair configuration and its migrations.
- `src/types.rs`: the `cosmwasm_std` types the library carries.

Address validation belongs to the chain, so the library takes it as a function
argument. `app/` holds the serializable forms of the types, the storage items, and the
functions that load a stored configuration, call the library and save the result.
