# nemo_management

The client side of central management, written in Verus.

A client polls its management server for a policy: a set of options that the
server fixes, or proposes, for this client. The library in `src/` makes the
request, checks the answer and says what the host application has to do. What it
does is stated in contracts and proved.

- `text`, `json`, `options`: texts, flat JSON objects, maps of options.
- `crypto`: base64, Ed25519 signatures and sealed boxes. The `base64` and
  `sodiumoxide` crates do the arithmetic.
- `keys`: the names of options, and the group of settings that each belongs to.
- `request`: the URL, the content and the headers of a poll.
- `payload`: the checks on the signature and the seal of an answer.
- `freshness`: protection against old policies that are sent again.
- `sync`: a poll, step by step.
- `policy`, `maps`, `apply`: how a policy is stored and applied.
- `error`: why a poll fails.

`app/` runs the polls for a host application. `tests/` holds the tests.

The public functions whose names begin with `law_` state what holds of the library
as a whole: for example that an accepted policy bars every older one, that a client
that has seen a sealed answer takes no plain one while it holds its device key, and
that a stored policy holds no secret.
