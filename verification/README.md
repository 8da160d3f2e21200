# launcher_core

The logic of DuckyLauncher, a Minecraft launcher in the manner of the Modrinth
App, written in Verus. The functions of `src/` carry contracts that Verus
proves, except the small functions below, marked `#[verifier::external_body]`, whose
contracts Verus believes without proof: each makes one call into std or an
outside crate and its doc comment says what is claimed of it.

- `identity::now_utc` (chrono's `DateTime::<Utc>::from` of std's
  `SystemTime::now`) and `identity::new_uuid_v4`
  (uuid's `Uuid::new_v4`): only the shape of the result is stated, since it
  depends on the clock and on chance.
- `minecraft::sha1_digest` (sha1): the result is 20 bytes equal to the name
  `sha1_of` of the input; the digest itself is not written out.
- `json::json_str`, `json::json_strs`, `json::json_str_lists`
  (`serde_json::to_string`): the text equals the JSON text that `json.rs`
  defines.
- `text::string_of` (std's `String::from_iter`): the characters are kept.

Layout:

- `src/` is the library. It decides and computes: the Microsoft / Xbox Live /
  XSTS / Minecraft sign-in (as a step function from an answer to the next
  request), the requests to Mojang, Modrinth, Fabric, Quilt and PaperMC, what
  installing a version or a loader downloads, the `java` command lines, the
  layout of the data folder, instances and their mods, saved accounts, and the
  installation of local servers. What alternates with the outside world is a
  step function from a state and what came back to the next action: the
  sign-in and its polling, the launch of an instance (`launching.rs`), the
  installation of a mod, of a Forge/NeoForge loader and of a server.
- `app/` is the Tauri application around it: it resolves the data folder with
  `dirs`, sends the requests with `reqwest`, parses JSON with `serde`, reads and
  writes files, spawns processes and wires the commands to the user interface.
- `tests/` runs the library on concrete values.
