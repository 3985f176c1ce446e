# voxeller

A small ray-traced voxel world.

`src/` is a library that is verified with Verus. It holds the program's data structures and its
decisions as functions on plain values:

| module | contents |
| --- | --- |
| `noise` | lattice hash, seed offsets, noise samples as ordered integers |
| `terrain` | from the samples of 48 by 48 columns to the voxels of a world |
| `voxel`, `mesh` | voxels and their face-culled triangle mesh |
| `memory`, `accel`, `pipeline`, `swapchain`, `engine` | the Vulkan engine: memory types, instances, build and creation steps, shader binding table, swapchain choices, course of a frame, teardown |
| `metal` | the Metal backend: unit cube, instances, thread groups |
| `backend`, `host` | what window events make backends and application do |
| `vulkan` | the calls into `ash`, with what is taken for granted of them |

`app/` is the program around it: the window, the calls into Vulkan and Metal in the order in which
a window is set up, and everything in floating point, that is noise, height field and camera.
`tests/` exercises the library from outside.

Properties that span several functions are stated as public proof functions whose names start
with `law_`.
