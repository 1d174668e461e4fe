# wgpu_native

The verified core of a C interface to the `wgpu` graphics library.

- `src/` holds what each entry point decides: the descriptors it builds, the answers it writes
  out, the memory it hands over and takes back, and which scope or handler an error goes to. Every
  function has a contract that Verus proves. Calls into a device and tables of native codes come
  in as functions. What is taken from other crates without proof stands in `src/outside.rs`.
- `tests/` runs the library on concrete values.
- `app/` holds the C entry points themselves: pointers, reference counts, and the objects of
  `wgpu` and `wgpu_core`. It is generic over the numbers of the C headers (`app/conv.rs`).
