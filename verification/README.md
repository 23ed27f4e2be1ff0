# tls_cert

TLS certificates of a small certificate authority: a builder for authority, client and server
certificates, an issuer for certificate signing requests, and readers for certificates and PKCS#12
archives.

The library under `src/` is verified with Verus.

| module        | what it holds                                                                   |
| ------------- | ------------------------------------------------------------------------------- |
| `model`       | the records, their values, and the errors                                       |
| `clock`       | times and validities                                                            |
| `text`        | decimal numbers, addresses, and checks of texts                                 |
| `openssl_api` | what is asked of `openssl`                                                      |
| `x509_api`    | what is asked of `x509-parser`                                                  |
| `rcgen_api`   | what is asked of `rcgen` and `rand`                                             |
| `builder`     | the builder of authority, client and server certificates                        |
| `acme`        | certificates for signing requests                                               |
| `reading`     | reading authorities, certificates and archives                                  |
| `laws`        | what holds across functions: what is read back of what was built                |

What the cryptography and the encodings do is not proved. Each call into a crate that does it
stands behind one function of the `_api` modules or of `clock`, whose contract says what is taken
for granted. A name such as `x509_san` stands for what a call gives back for its arguments.
Where chance, the clock or the machine has a part in it, a relation such as `x509_built` or
`system_clock_shows` holds of everything that may come back.

`app/` reads the configuration (`VAULTLS_CRL_DP_URL`, the address under which revocation lists are
found) and turns errors into texts.
