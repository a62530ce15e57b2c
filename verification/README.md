# raytrace_gl

An OpenGL viewer that ray-traces a small scene, split in two:

- `src/` is the verified library (Verus): the text and counting exercises
  (`tasks`), the protocol that builds shader programs step by step
  (`program`), the records of the GPU objects and the decisions on them
  (`gpu`), and the viewer's input state machine and dispatch size (`viewer`).
- `app/` is the program around it: the window and GL context, every OpenGL
  call, the camera and scene (floating point), and printing.
