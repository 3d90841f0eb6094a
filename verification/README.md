# sbom_backend

A web service that stores software bills of materials (CycloneDX), scans them for
vulnerabilities with a Trivy server, and keeps per package version a history of the
vulnerability counts. Product lines, products, packages, versions and deployment
environments are kept in PostgreSQL; write access needs an OAuth token with the
`security` role.

## Layout

- `src/` is the verified library (Verus):
  - `model/`: the data model, the grouping and title order of product lines, the
    vulnerability counters of a scan and the CycloneDX subset the service reads;
  - `client/`: the conversion of a bill of materials into scanner blobs, of scanner
    findings into CycloneDX vulnerabilities, the scanner requests, and the scan of a
    bill's blobs as a state machine (`scan_flow`);
  - `service/`: the decisions of the handlers, among them the upload of a bill of
    materials as a state machine (`post_bom`), from outcome to next action;
  - `auth/`: the token check (key id, key lookup, RS256 signature and claims check,
    retry with fresh keys) and the key-cache refresh;
  - `util/`, `error/`, `facade/`, `text.rs`, `runtime.rs`: validation-error
    flattening, message-language choice, error shapes, title sanitising, text helpers
    and the middleware answers.
- `app/` is the executable around it: routes and handlers (axum), database access
  (sqlx), the token extractor and its claims, the HTTP clients (hyper, rustls), the
  Trivy calls and translated messages (fluent). It drives the library's state
  machines and hands it plain values.
- `tests/` exercises the library on concrete values.

## Running

The service reads `DATABASE_CONNECTION`, `AUD`, `ISS`, `AUTHORITY_URL`, `PROD` and
`VOLUME_LOG` from the environment, listens on port 5002, and expects a Trivy server
on `127.0.0.1:10000` and messages under `./resources/{locale}/messages.ftl`.
