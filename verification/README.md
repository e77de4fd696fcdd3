# exalta

A launcher for Realm of the Mad God Exalt, with its logic verified by Verus.

- `src/` is the verified library:
  - `text`: character-level string operations (prefix, infix, replace) with their specifications;
  - `client`: the account-service client — session state and default form parameters,
    the sign-in, password-reset, token-check and settings requests and how their replies
    are judged, hexadecimal encoding, and the game download (checksums, unpacking, retry policy);
  - `launcher`: navigation history, settings, saved sign-ins, the device token, the update
    decision, the registry build id, and the game's launch arguments.
- `app/` is the program around it: the window (eframe), the command-line sign-in, HTTP
  requests (reqwest), files, the keyring, and the serde forms of the library's types.
- `tests/` exercises the library on concrete values.
