# auction_service

The decision logic of a small offer and auction service, verified with Verus.

Users register and log in with a mail and a password; a login sets a session
cookie that holds a signed token (HS256). Logged-in users post offers of two
kinds, auctions (with a closing time) and buy-now offers (with a quantity),
change and remove their own offers, buy from buy-now offers and bid on
auctions. Anyone can list the offers, filtered by text, price window, type and
owner, and look at one offer.

## Layout

- `src/` is the verified library. Every request handler is a step machine:
  a state, the event that the last action gave (a store read or write, the
  authorization), and a step function that returns the next state and action.
  The contracts state each step exactly, and the modules prove the service's
  rules as laws (owners cannot buy their own offers, purchases never exceed the
  stock, bids must beat the last bid, only owners change or remove offers,
  session tokens authorize the user they were made for, listings hold exactly
  the offers that pass the filters).
  - `status`, `price` (single-precision numbers by their bits, ordered as
    IEEE 754 orders them), `text`, `model`
  - `credentials` (mail validation and token signing, through `validator` and
    `jsonwebtoken`), `auth`
  - `endpoints`, `session` (login and registration), `listing`, `posting`,
    `managing`, `viewing`, `buying`
- `tests/` runs the library on concrete requests.
- `app/` is the program: the SQLite store through diesel, the JSON of requests
  and answers, and the loops that drive the step machines.
