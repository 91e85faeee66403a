# lucchat

The key-agreement core of an end-to-end encrypted chat client, verified with Verus.

- `src/crypt/crypto_utils`: X25519 (through `x25519-dalek`), Ed25519 signing (through
  `ed25519-dalek`), HKDF-SHA256 (through `hkdf`/`sha2`) and random secrets (through
  `rand`), each behind a small trusted wrapper.
- `src/crypt/x3dh/session.rs`: the X3DH computations of the initiator and of the
  responder. Their contracts state the exact derivation and that both sides derive the
  same key when the keys match.
- `src/structs`: key pairs (whose public half is the X25519 public key of the secret;
  the signed pre-key also carries the identity's Ed25519 signature of its public half),
  users, messages.
- `src/commands`: the records exchanged with the server, the registration payload, the
  opening of a session with a friend and the payload of a message.
- `src/logger`: the format of log lines.
- `app/`: HTTP calls, files on disk, the log file, and serializable copies of the records.

## Choices of this crate

The crypto parameters and key layout below are this crate's own choices; a client that
must interoperate with other peers has to use the same ones:

- the session key is HKDF-SHA256 over the concatenated DH outputs, with 32 zero bytes of
  salt, the info string `X3DH` and no prefix bytes;
- an identity holds a separate Ed25519 secret key; the signed pre-key is signed with it
  over its 32 public bytes;
- key pairs are plain records with public fields; `well_formed` is a predicate that the
  constructors establish.

Not present: the double ratchet (root key derivation, ratchet keys, message encryption)
and therefore the sending of a message beyond opening its X3DH session; session states
are kept by `app/` as JSON values. The Tauri shell (`run`, the command registration and
the application handle) is not present either: `app/` takes the data directory as a path.
