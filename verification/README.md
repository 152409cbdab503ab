# Salesforce UserInfo enrichment

A gateway policy that adds the attributes which the Salesforce UserInfo endpoint knows of a user
to the authentication of the user's request. Policies behind it read them from the properties of
the principal.

- `src/` is the policy: a verified library. `enrich` takes a request through its steps and says at
  each step what the gateway has to do next; every contract is stated over the models in the same
  modules, and `laws` states what holds of the policy as a whole.
- `app/` is the filter: it performs the steps (store, HTTP, clock, logging) and nothing else.
- `tests/` runs the library.

The library trusts `serde_json` for JSON, `pdk` for the claims of a JWT and for the authentication
data, and a few functions of the standard library. Each of these is declared with the contract
that is relied on, next to the code that uses it.

A configuration is checked when it is applied: `cacheTtlMinutes` from 0 to 60, `maxCacheEntries`
from 1, `timeoutMs` from 1000 to 30000.

Results are cached for the configured time and never past the expiry of the token. The cache holds
at most as many tokens as configured: a full cache gives up the entries that it lists first. A
failure of the endpoint is reported as a policy violation, leaves no attributes, and is not
cached.
