# rafx_api GL backends, verified

The GL ES 2.0 / GL ES 3.0 / desktop GL backend logic of the rafx graphics API, written in
Verus. Every function in `src/` carries a contract that Verus proves.

GL itself is not called from `src/`. Recording a command, making a buffer or a texture, or
flushing a mapped buffer returns the GL calls to make as a list of `GlCommand`s; where GL's answer
decides what happens next (a framebuffer status, a compile log, a `glFinish` result), the answer
is handed back to a second library function. `app/` holds the GL context that performs the calls.

## Layout

- `src/types.rs`, `src/conversions.rs`: the API's enums and flag sets, and their GL values.
- `src/buffer.rs`, `src/buffer_gles3.rs`, `src/texture.rs`, `src/sampler.rs`: resources, their
  CPU copies and the calls that allocate and upload them.
- `src/reflection.rs`, `src/root_signature.rs`, `src/root_signature_gles2.rs`,
  `src/descriptor_set_array.rs`, `src/descriptor_binding.rs`: descriptor layout, uniform
  reflection, descriptor updates and how a descriptor set is pushed into a program.
- `src/command_pool.rs`, `src/command_buffer.rs`, `src/pipeline.rs`: recording state and commands.
- `src/shader_module.rs`, `src/shader.rs`: shader compilation bookkeeping and programs.
- `src/sync.rs`, `src/sync_gles3.rs`, `src/swapchain.rs`, `src/device.rs`: fences, semaphores,
  the swapchain's image rotation, queues and device limits.
- `src/gl_loader.rs`, `src/gl_context.rs`, `src/gles20.rs`, `src/gl_command.rs`: the entry point
  table, GL names and constants, and the calls the library records.
- `src/fnv_maps.rs`: the FNV hash maps behind name and binding lookups.
- `tests/`: tests on concrete values.
- `app/`: the GL context, buffer and texture creation, and command execution.
