# shimesu

A self-hosted static publishing platform for AWS: one command turns a file,
a directory or a zip archive into a site with its own HTTPS URL, served by a
CloudFront distribution from a private S3 bucket, with site records in
DynamoDB.

## Layout

- `src/` is the verified library. It holds the rules of every command as
  functions from plain values to plain values, each with a Verus contract:
  slug and path validation, configuration precedence, the mapping of AWS
  errors, stack-status interpretation, ownership checks on the resources an
  installation tags, the doctor run and the certificate resolution as state
  machines, the sync plan of a publish (what to upload, skip and delete),
  and the reports each command prints.
- `tests/` runs the library on concrete values.
- `app/` is the `shimesu` binary: argument parsing, terminal and JSON
  output, the configuration file, and every AWS call. It converts SDK values
  to the library's types and lets the library decide.

## Installation files

`stack init` and `stack update` send `infra/stack.yaml` and
`infra/certificate.yaml` to CloudFormation and upload `static/index.html` and
`static/404.html` as landing pages. The binary reads them at run time from the
directory named by `SHIMESU_ASSETS_DIR`, or from the current directory.
