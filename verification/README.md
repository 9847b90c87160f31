# cargo_registry

Verified pieces of a package registry's server.

- `src/s3.rs`: an S3 bucket that prepares signed `PUT` and `DELETE`
  requests (AWS signature version 2: HMAC-SHA1 through OpenSSL, base64
  through rustc-serialize).
- `src/user/`: the users of the registry, the decisions of the user queries,
  and the GitHub sign-in, `/me` and `/me/updates` routes as steps that the
  caller drives.
- `src/text.rs`: decimal text of integers.
- `app/`: curl, PostgreSQL, diesel and conduit around the library.
- `tests/`: tests of the library on concrete values.
