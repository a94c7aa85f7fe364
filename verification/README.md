# taobao_order

A command-line helper that places a Taobao order for one item at a set launch
time: it reads the browser's cookies, checks the account, finds the item in the
cart, waits for the launch (correcting for the clock offset and the network
delay), then settles and submits the order.

## Layout

- `src/` — the verified library (Verus):
  - `text.rs`: string helpers (decimal text, trimming, joining, lines).
  - `json.rs`: a JSON value model, member lookup and compact serialisation.
  - `urlencode.rs`: form encoding of parameter lists.
  - `payloads/`: the request parameters and payloads of each trade call.
  - `sign.rs`: the request signature (MD5 of token, time, app key and data).
  - `cookie.rs`: the cookie jar and the `Cookie` header.
  - `mtop.rs`: URLs, bodies and headers of the trade service calls, and the
    order time read from the order page.
  - `actions.rs`: checks of the service's answers, the cart item lookup, the
    settlement and submit parameters, the submit strategy, the account check.
  - `guide.rs`: the browser menu state machine and the checks of typed input.
  - `timing.rs`: the wait before the launch and the timeline printed for it.
- `tests/` — tests of the library on concrete values.
- `app/` — the program around it: terminal, HTTP, cookie reading, time sync.
