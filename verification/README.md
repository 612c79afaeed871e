# cosmic_greeter

Verified core of the COSMIC greeter's background-shader and user-data handling.

- `src/shader.rs`: shader sources and their language (GLSL files are refused), the
  WGSL preamble that every loaded shader gets, the hash that tells when a shader
  changed, the per-frame decision to build or reuse a GPU pipeline, and the shader
  program.
- `src/user.rs`: a user's full name from the GECOS field, the user's data built from a
  user-database entry, and what loading the user's configuration leaves in it.
- `app/`: the parts Verus does not see: file and config reading, serde, logging and the
  wgpu pipeline. They hand plain values to the library and act on its decisions.
- `tests/`: tests of the library on concrete values.
