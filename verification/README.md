# cossack_business

The rules of "Cossack Business", a Solana game in which players search for
resources, craft them into item NFTs and trade the items for MagicToken,
written as a Verus library whose functions are proved against their
contracts.

- `src/` — the verified library. Each instruction of the game's six
  programs (resource manager, search, crafting, item NFT, MagicToken,
  marketplace) is a function from the accounts it reads and its arguments to
  the new account state and the token operations it asks the runtime for.
  `src/laws.rs` proves properties that span instructions: the search
  cooldown, that searches and crafting only ask the resource manager for what
  it accepts, that crafting burns exactly an item's recipe, and that a
  listing settles once.
  `src/token_metadata.rs` builds the Token Metadata instructions through the
  `mpl_token_metadata` crate; `search::search_resources_now` reads the
  cluster's clock through `anchor_lang`.
- `app/` — the glue that runs on Solana: it finds the invoking program,
  performs the token-program and cross-program calls the library plans, and
  turns the library's refusals into runtime errors.
- `tests/` — tests of the library on concrete values.
