# fatcat_api_spec

Request handling for the HTTP server of the fatcat catalog API, verified with
Verus.

`src/` is the verified library:

- `operation.rs`: the route table. Each of the 45 operations has its method,
  its path pattern (`/v0/<resource>[/:id][/<tail>]`), its route name, how its
  `id` path parameter is read, its query parameters, its body parameter and
  the responses it may give, with their status codes.
- `percent.rs`: percent-decoding of path segments, against its specification.
- `request.rs`: reading a request for an operation: the `id` path parameter,
  then the query parameters, then the body; the 400 or 500 rejection of the
  first that cannot be read.
- `response.rs`: the span id of a request and the answers sent: rejections,
  failures of the implementation, and the responses it gives.
- `middleware.rs`: the authentication middleware, which lets every request
  through.
- `foreign.rs`: the calls into std, `uuid` and `url`, with the contracts that
  their documentation and source give them.
- `route_laws.rs`, `request_laws.rs`: laws proved of the route table and of
  request handling.

`app/` registers the routes on an Iron `Router`, reads each request, calls the
implementation of the API, and writes the library's answer out as an Iron
response.
