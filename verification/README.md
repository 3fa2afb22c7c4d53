# solo2

Verified logic of a security key's firmware applications, written in Verus.

- `src/` is the library, checked by Verus: APDU decoding, DER and TLV
  encoding, the PIV card application (PIN handling, data objects, general
  authenticate), the provisioner, the OATH export, the NDEF tag, the CCID
  transport state machine, and small board types.
- `tests/` runs the library on concrete values.
- `app/` connects the library to the APDU dispatcher, storage, randomness and
  the USB pipe; it is ordinary Rust and holds no decisions of its own.
